//! Text helpers: the NUL-separated lists of ID3 text frames and the decimal
//! form of optional numbers.

use vstd::prelude::*;
use vstd::string::*;

verus! {

/// The separator between the values of one ID3 text frame.
pub open spec fn nul() -> char {
    '\0'
}

/// Position of the first NUL in `s`, or `s.len()` where it holds none.
pub open spec fn first_nul(s: Seq<char>) -> int
    decreases s.len(),
{
    if s.len() == 0 {
        0
    } else if s[0] == nul() {
        0
    } else {
        1 + first_nul(s.drop_first())
    }
}

/// The segments of `s` between its NULs, in order. A text without NUL is one
/// segment, and so is the empty text.
pub open spec fn nul_split(s: Seq<char>) -> Seq<Seq<char>>
    decreases s.len(),
{
    let k = first_nul(s);
    if 0 <= k < s.len() {
        seq![s.take(k)] + nul_split(s.skip(k + 1))
    } else {
        seq![s]
    }
}

/// The segments joined again, one NUL between neighbours.
pub open spec fn nul_join(parts: Seq<Seq<char>>) -> Seq<char>
    decreases parts.len(),
{
    if parts.len() == 0 {
        Seq::empty()
    } else if parts.len() == 1 {
        parts[0]
    } else {
        parts[0] + seq![nul()] + nul_join(parts.drop_first())
    }
}

/// True where `s` holds no NUL.
pub open spec fn nul_free(s: Seq<char>) -> bool {
    forall|i: int| 0 <= i < s.len() ==> s[i] != nul()
}

/// The first NUL lies in the text or at its end; nothing before it is a
/// NUL, and where it lies in the text it is one.
pub proof fn lemma_first_nul_bounds(s: Seq<char>)
    ensures
        0 <= first_nul(s) <= s.len(),
        forall|i: int| 0 <= i < first_nul(s) ==> s[i] != nul(),
        first_nul(s) < s.len() ==> s[first_nul(s)] == nul(),
    decreases s.len(),
{
    if s.len() != 0 && s[0] != nul() {
        let t = s.drop_first();
        lemma_first_nul_bounds(t);
        assert forall|i: int| 0 <= i < first_nul(s) implies s[i] != nul() by {
            if i > 0 {
                assert(s[i] == t[i - 1]);
            }
        }
    }
}

/// The first NUL is where the caller found it: nothing before `k` is a NUL,
/// and `k` is the end of the text or holds one.
pub proof fn lemma_first_nul_is(s: Seq<char>, k: int)
    requires
        0 <= k <= s.len(),
        forall|i: int| 0 <= i < k ==> s[i] != nul(),
        k < s.len() ==> s[k] == nul(),
    ensures
        first_nul(s) == k,
{
    lemma_first_nul_bounds(s);
}

/// Joining the segments of a text gives the text back.
pub proof fn lemma_join_of_split(s: Seq<char>)
    ensures
        nul_join(nul_split(s)) == s,
    decreases s.len(),
{
    lemma_first_nul_bounds(s);
    let k = first_nul(s);
    if k < s.len() {
        let rest = s.skip(k + 1);
        lemma_join_of_split(rest);
        let parts = nul_split(s);
        assert(parts.drop_first() =~= nul_split(rest));
    }
}

/// Splitting a joined list gives the list back, provided it is not empty and
/// none of its items holds a NUL.
pub proof fn lemma_split_of_join(parts: Seq<Seq<char>>)
    requires
        parts.len() > 0,
        forall|i: int| 0 <= i < parts.len() ==> nul_free(#[trigger] parts[i]),
    ensures
        nul_split(nul_join(parts)) == parts,
    decreases parts.len(),
{
    let head = parts[0];
    if parts.len() == 1 {
        lemma_first_nul_is(head, head.len() as int);
    } else {
        let tail = parts.drop_first();
        assert forall|i: int| 0 <= i < tail.len() implies nul_free(#[trigger] tail[i]) by {}
        lemma_split_of_join(tail);
        let joined = nul_join(parts);
        lemma_first_nul_is(joined, head.len() as int);
        assert(joined.take(head.len() as int) =~= head);
        assert(joined.skip(head.len() as int + 1) =~= nul_join(tail));
    }
}

/// The texts of a list of strings.
pub open spec fn texts(v: Seq<String>) -> Seq<Seq<char>> {
    v.map_values(|s: String| s@)
}

/// The text of an optional string.
pub open spec fn opt_view(s: Option<String>) -> Option<Seq<char>> {
    match s {
        Some(t) => Some(t@),
        None => None,
    }
}

/// Splits the text of an ID3 frame at its NULs. No frame gives no values.
pub fn id3_split(s: Option<&str>) -> (out: Vec<String>)
    ensures
        texts(out@) == match s {
            Some(t) => nul_split(t@),
            None => Seq::<Seq<char>>::empty(),
        },
{
    let mut out: Vec<String> = Vec::new();
    let t = match s {
        Some(t) => t,
        None => {
            return out;
        },
    };
    let n: usize = t.unicode_len();
    let mut start: usize = 0;
    let mut i: usize = 0;
    proof {
        assert(t@.skip(0) =~= t@);
    }
    while i < n
        invariant
            n == t@.len(),
            start <= i <= n,
            forall|j: int| start <= j < i ==> t@[j] != nul(),
            nul_split(t@) == texts(out@) + nul_split(t@.skip(start as int)),
        decreases n - i,
    {
        let c = t.get_char(i);
        if c == '\0' {
            let piece = t.substring_char(start, i);
            let owned = String::from_str(piece);
            proof {
                let rest = t@.skip(start as int);
                let k = i - start;
                assert forall|j: int| 0 <= j < k implies rest[j] != nul() by {}
                lemma_first_nul_is(rest, k);
                assert(rest.take(k) =~= t@.subrange(start as int, i as int));
                assert(rest.skip(k + 1) =~= t@.skip(i + 1));
            }
            out.push(owned);
            start = i + 1;
        }
        i = i + 1;
    }
    let piece = t.substring_char(start, n);
    let owned = String::from_str(piece);
    proof {
        let rest = t@.skip(start as int);
        assert forall|j: int| 0 <= j < rest.len() implies rest[j] != nul() by {}
        lemma_first_nul_is(rest, rest.len() as int);
    }
    out.push(owned);
    out
}

/// Joins the values of a multi-valued field into the text of one ID3 frame.
pub fn id3_join(parts: &Vec<String>) -> (out: String)
    ensures
        out@ == nul_join(texts(parts@)),
{
    let mut out = String::new();
    let n = parts.len();
    let mut i: usize = n;
    while i > 0
        invariant
            n == parts@.len(),
            i <= n,
            out@ == nul_join(texts(parts@).skip(i as int)),
        decreases i,
    {
        i = i - 1;
        let ghost tail = texts(parts@).skip(i + 1);
        let ghost here = texts(parts@).skip(i as int);
        proof {
            assert(here.drop_first() =~= tail);
            reveal_strlit("\0");
        }
        let mut piece = parts[i].clone();
        if i + 1 < n {
            piece.append("\0");
            piece.append(out.as_str());
        }
        out = piece;
    }
    proof {
        assert(texts(parts@).skip(0) =~= texts(parts@));
    }
    out
}

/// What `str::parse::<u32>` makes of a text: the number it denotes, or none
/// where it denotes no `u32`.
pub uninterp spec fn parsed_u32(text: Seq<char>) -> Option<u32>;

/// The character of one decimal digit.
pub open spec fn digit_char(d: nat) -> char {
    if d == 0 {
        '0'
    } else if d == 1 {
        '1'
    } else if d == 2 {
        '2'
    } else if d == 3 {
        '3'
    } else if d == 4 {
        '4'
    } else if d == 5 {
        '5'
    } else if d == 6 {
        '6'
    } else if d == 7 {
        '7'
    } else if d == 8 {
        '8'
    } else {
        '9'
    }
}

/// The decimal digits of `n`, most significant first, without leading zeros.
pub open spec fn decimal(n: nat) -> Seq<char>
    decreases n,
{
    if n < 10 {
        seq![digit_char(n)]
    } else {
        decimal(n / 10) + seq![digit_char(n % 10)]
    }
}

fn digit_str(d: u32) -> (s: &'static str)
    requires
        d < 10,
    ensures
        s@ == seq![digit_char(d as nat)],
{
    proof {
        reveal_strlit("0");
        reveal_strlit("1");
        reveal_strlit("2");
        reveal_strlit("3");
        reveal_strlit("4");
        reveal_strlit("5");
        reveal_strlit("6");
        reveal_strlit("7");
        reveal_strlit("8");
        reveal_strlit("9");
    }
    let s = if d == 0 {
        "0"
    } else if d == 1 {
        "1"
    } else if d == 2 {
        "2"
    } else if d == 3 {
        "3"
    } else if d == 4 {
        "4"
    } else if d == 5 {
        "5"
    } else if d == 6 {
        "6"
    } else if d == 7 {
        "7"
    } else if d == 8 {
        "8"
    } else {
        "9"
    };
    s
}

/// Writes a number in decimal.
pub fn u32_to_string(n: u32) -> (out: String)
    ensures
        out@ == decimal(n as nat),
{
    let mut out = String::from_str(digit_str(n % 10));
    let mut rest: u32 = n / 10;
    while rest > 0
        invariant
            decimal(n as nat) == if rest > 0 {
                decimal(rest as nat) + out@
            } else {
                out@
            },
        decreases rest,
    {
        let mut front = String::from_str(digit_str(rest % 10));
        front.append(out.as_str());
        out = front;
        rest = rest / 10;
    }
    out
}

/// The text shown for an optional number: its decimal form, or nothing.
pub open spec fn opt_text(n: Option<u32>) -> Seq<char> {
    match n {
        Some(v) => decimal(v as nat),
        None => Seq::empty(),
    }
}

/// A number as text; a missing number is the empty text, never a placeholder.
pub fn opt_to_str(n: Option<u32>) -> (out: String)
    ensures
        out@ == opt_text(n),
{
    match n {
        Some(v) => u32_to_string(v),
        None => String::new(),
    }
}

} // verus!
