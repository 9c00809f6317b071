//! Composite keys for the single-table layout.
//!
//! Every stored record is addressed by a partition key `pk` and a sort
//! key `sk`; the prefix of `sk` classifies the record's type.  Message
//! sort keys end in a zero-padded, fixed-width decimal sequence number
//! so that lexicographic order over `sk` equals numeric order over the
//! sequence.

use vstd::prelude::*;

verus! {

/// Width of the padded sequence number: three digits, so a thread can
/// hold at most `SEQ_LIMIT` messages.
pub const SEQ_LIMIT: u32 = 1000;

/// The decimal digit character for `d` (0 through 9).
pub open spec fn digit_char(d: int) -> char {
    if d == 0 {
        '0'
    } else if d == 1 {
        '1'
    } else if d == 2 {
        '2'
    } else if d == 3 {
        '3'
    } else if d == 4 {
        '4'
    } else if d == 5 {
        '5'
    } else if d == 6 {
        '6'
    } else if d == 7 {
        '7'
    } else if d == 8 {
        '8'
    } else {
        '9'
    }
}

/// The numeric value of a decimal digit character, or -1 if `c` is no digit.
pub open spec fn digit_value(c: char) -> int {
    if c == '0' {
        0
    } else if c == '1' {
        1
    } else if c == '2' {
        2
    } else if c == '3' {
        3
    } else if c == '4' {
        4
    } else if c == '5' {
        5
    } else if c == '6' {
        6
    } else if c == '7' {
        7
    } else if c == '8' {
        8
    } else if c == '9' {
        9
    } else {
        -1
    }
}

/// The three-character zero-padded decimal form of `n` (0 <= n < 1000).
pub open spec fn padded_seq(n: int) -> Seq<char> {
    seq![digit_char(n / 100), digit_char((n / 10) % 10), digit_char(n % 10)]
}

/// The numeric value of a three-character digit sequence.
pub open spec fn padded_seq_value(s: Seq<char>) -> int
    recommends
        s.len() == 3,
{
    100 * digit_value(s[0]) + 10 * digit_value(s[1]) + digit_value(s[2])
}

/// Whether every character of `s` is a decimal digit.
pub open spec fn all_digits(s: Seq<char>) -> bool {
    forall|i: int| 0 <= i < s.len() ==> digit_value(#[trigger] s[i]) >= 0
}

/// The digit character of a digit value, as a borrowed one-character string.
fn digit_str(d: u32) -> (r: &'static str)
    requires
        d < 10,
    ensures
        r@ =~= seq![digit_char(d as int)],
{
    proof {
        reveal_strlit("0");
        reveal_strlit("1");
        reveal_strlit("2");
        reveal_strlit("3");
        reveal_strlit("4");
        reveal_strlit("5");
        reveal_strlit("6");
        reveal_strlit("7");
        reveal_strlit("8");
        reveal_strlit("9");
    }
    match d {
        0 => "0",
        1 => "1",
        2 => "2",
        3 => "3",
        4 => "4",
        5 => "5",
        6 => "6",
        7 => "7",
        8 => "8",
        _ => "9",
    }
}

/// Render `n` as its zero-padded three-digit decimal form.
pub fn format_seq(n: u32) -> (r: String)
    requires
        n < SEQ_LIMIT,
    ensures
        r@ == padded_seq(n as int),
{
    let d0 = n / 100;
    let d1 = (n / 10) % 10;
    let d2 = n % 10;
    let mut out = String::new();
    out.append(digit_str(d0));
    out.append(digit_str(d1));
    out.append(digit_str(d2));
    proof {
        assert(out@ =~= padded_seq(n as int));
    }
    out
}

/// Every padded sequence is made of digits.
pub proof fn lemma_padded_seq_all_digits(n: int)
    requires
        0 <= n < 1000,
    ensures
        padded_seq(n).len() == 3,
        all_digits(padded_seq(n)),
{
    assert forall|i: int| 0 <= i < padded_seq(n).len() implies digit_value(
        #[trigger] padded_seq(n)[i],
    ) >= 0 by {
        assert(0 <= n / 100 < 10);
        assert(0 <= (n / 10) % 10 < 10);
        assert(0 <= n % 10 < 10);
    }
}

/// Parsing the padded form of `n` gives back `n`: the digits of the
/// trailing key segment reconstruct the numeric sequence exactly.
pub proof fn lemma_padded_seq_round_trip(n: int)
    requires
        0 <= n < 1000,
    ensures
        padded_seq_value(padded_seq(n)) == n,
{
    assert(n == 100 * (n / 100) + 10 * ((n / 10) % 10) + n % 10) by (nonlinear_arith);
}

/// Lexicographic order on character sequences.
pub open spec fn lex_lt(a: Seq<char>, b: Seq<char>) -> bool
    decreases a.len(),
{
    if b.len() == 0 {
        false
    } else if a.len() == 0 {
        true
    } else if a[0] != b[0] {
        (a[0] as int) < (b[0] as int)
    } else {
        lex_lt(a.skip(1), b.skip(1))
    }
}

/// Zero-padding keeps lexicographic order in line with numeric order:
/// for sequence numbers below the width cap, the smaller number has the
/// lexicographically smaller padded form.
pub proof fn lemma_padded_seq_lex_order(a: int, b: int)
    requires
        0 <= a < b < 1000,
    ensures
        lex_lt(padded_seq(a), padded_seq(b)),
{
    let sa = padded_seq(a);
    let sb = padded_seq(b);
    assert(a == 100 * (a / 100) + 10 * ((a / 10) % 10) + a % 10) by (nonlinear_arith);
    assert(b == 100 * (b / 100) + 10 * ((b / 10) % 10) + b % 10) by (nonlinear_arith);
    if a / 100 < b / 100 {
        lemma_digit_char_order(a / 100, b / 100);
        assert(lex_lt(sa, sb));
    } else {
        assert(a / 100 == b / 100);
        if (a / 10) % 10 < (b / 10) % 10 {
            lemma_digit_char_order((a / 10) % 10, (b / 10) % 10);
            lemma_digit_char_injective(a / 100, b / 100);
            assert(lex_lt(sa.skip(1), sb.skip(1)));
            assert(lex_lt(sa, sb));
        } else {
            assert((a / 10) % 10 == (b / 10) % 10);
            assert(a % 10 < b % 10);
            lemma_digit_char_order(a % 10, b % 10);
            assert(lex_lt(sa.skip(1).skip(1), sb.skip(1).skip(1)));
            assert(lex_lt(sa.skip(1), sb.skip(1)));
            assert(lex_lt(sa, sb));
        }
    }
}

proof fn lemma_digit_char_order(d1: int, d2: int)
    requires
        0 <= d1 < d2 < 10,
    ensures
        (digit_char(d1) as int) < (digit_char(d2) as int),
        digit_char(d1) != digit_char(d2),
{
}

proof fn lemma_digit_char_injective(d1: int, d2: int)
    requires
        0 <= d1 < 10,
        0 <= d2 < 10,
        d1 == d2,
    ensures
        digit_char(d1) == digit_char(d2),
{
}

/// The numeric value of a decimal digit character.
fn digit_of_char(c: char) -> (r: u32)
    requires
        digit_value(c) >= 0,
    ensures
        r as int == digit_value(c),
        r < 10,
{
    match c {
        '0' => 0,
        '1' => 1,
        '2' => 2,
        '3' => 3,
        '4' => 4,
        '5' => 5,
        '6' => 6,
        '7' => 7,
        '8' => 8,
        _ => 9,
    }
}

/// Parse a three-digit zero-padded sequence number.
pub fn parse_seq(s: &str) -> (r: u32)
    requires
        s@.len() == 3,
        all_digits(s@),
    ensures
        r as int == padded_seq_value(s@),
        r < SEQ_LIMIT,
{
    let d0 = digit_of_char(s.get_char(0));
    let d1 = digit_of_char(s.get_char(1));
    let d2 = digit_of_char(s.get_char(2));
    100 * d0 + 10 * d1 + d2
}

/// Whether `s` holds no `'#'`, the separator of composite keys.
/// Identifiers interpolated into keys must satisfy this; a ULID always
/// does, its alphabet being digits and upper-case letters.
pub open spec fn no_hash(s: Seq<char>) -> bool {
    forall|i: int| 0 <= i < s.len() ==> #[trigger] s[i] != '#'
}

/// Concatenate two string slices.
pub fn concat_str(a: &str, b: &str) -> (r: String)
    ensures
        r@ == a@ + b@,
{
    let mut out = a.to_owned();
    out.append(b);
    out
}

/// The characters of `s` from position `n` on, as an owned string.
pub fn string_skip(s: &str, n: usize) -> (r: String)
    requires
        n <= s@.len(),
    ensures
        r@ == s@.skip(n as int),
{
    let len = s.unicode_len();
    let sub = s.substring_char(n, len);
    proof {
        assert(sub@ =~= s@.skip(n as int));
    }
    sub.to_owned()
}

/// The first position at or after `from` where `c` occurs in `s`.
pub fn find_char_from(s: &str, from: usize, c: char) -> (r: Option<usize>)
    requires
        from <= s@.len(),
    ensures
        match r {
            Some(i) => {
                &&& from <= i < s@.len()
                &&& s@[i as int] == c
                &&& forall|j: int| from <= j < i ==> #[trigger] s@[j] != c
            },
            None => forall|j: int| from <= j < s@.len() ==> #[trigger] s@[j] != c,
        },
{
    let len = s.unicode_len();
    let mut i = from;
    while i < len
        invariant
            from <= i <= len,
            len == s@.len(),
            forall|j: int| from <= j < i ==> #[trigger] s@[j] != c,
        decreases len - i,
    {
        if s.get_char(i) == c {
            return Some(i);
        }
        i += 1;
    }
    None
}

/// The partition key of a user's records: `User#<user_id>`.
pub open spec fn spec_user_pk(user_id: Seq<char>) -> Seq<char> {
    "User#"@ + user_id
}

/// Build `User#<user_id>`.
pub fn user_pk(user_id: &str) -> (r: String)
    ensures
        r@ == spec_user_pk(user_id@),
{
    concat_str("User#", user_id)
}

/// The sort key of a thread record: `ChatThread#<thread_id>`.
pub open spec fn spec_thread_sk(thread_id: Seq<char>) -> Seq<char> {
    "ChatThread#"@ + thread_id
}

/// Build `ChatThread#<thread_id>`.
pub fn thread_sk(thread_id: &str) -> (r: String)
    ensures
        r@ == spec_thread_sk(thread_id@),
{
    concat_str("ChatThread#", thread_id)
}

/// The sort key of a message record:
/// `ChatMessage#<thread_id>#<seq>`, with `seq` zero-padded.
pub open spec fn spec_message_sk(thread_id: Seq<char>, seq: int) -> Seq<char> {
    "ChatMessage#"@ + thread_id + "#"@ + padded_seq(seq)
}

/// Build `ChatMessage#<thread_id>#<seq>`.
pub fn message_sk(thread_id: &str, seq: u32) -> (r: String)
    requires
        seq < SEQ_LIMIT,
    ensures
        r@ == spec_message_sk(thread_id@, seq as int),
{
    let mut out = concat_str("ChatMessage#", thread_id);
    out.append("#");
    let padded = format_seq(seq);
    out.append(padded.as_str());
    out
}

/// The partition key of a saved query: `ChatThread#<thread_id>`.
pub open spec fn spec_query_pk(thread_id: Seq<char>) -> Seq<char> {
    "ChatThread#"@ + thread_id
}

/// Build `ChatThread#<thread_id>` as a query partition key.
pub fn query_pk(thread_id: &str) -> (r: String)
    ensures
        r@ == spec_query_pk(thread_id@),
{
    concat_str("ChatThread#", thread_id)
}

/// The sort key of a saved query: `SqlQuery#<query_id>`.
pub open spec fn spec_query_sk(query_id: Seq<char>) -> Seq<char> {
    "SqlQuery#"@ + query_id
}

/// Build `SqlQuery#<query_id>`.
pub fn query_sk(query_id: &str) -> (r: String)
    ensures
        r@ == spec_query_sk(query_id@),
{
    concat_str("SqlQuery#", query_id)
}

/// The shared partition key of all data requests.
pub open spec fn spec_request_pk() -> Seq<char> {
    "DataRequest"@
}

/// Build the data-request partition key.
pub fn request_pk() -> (r: String)
    ensures
        r@ == spec_request_pk(),
{
    "DataRequest".to_owned()
}

/// The sort key of a data request:
/// `ChatThread#<thread_id>#DataRequest#<request_id>`.
pub open spec fn spec_request_sk(thread_id: Seq<char>, request_id: Seq<char>) -> Seq<char> {
    "ChatThread#"@ + thread_id + "#DataRequest#"@ + request_id
}

/// Build `ChatThread#<thread_id>#DataRequest#<request_id>`.
pub fn request_sk(thread_id: &str, request_id: &str) -> (r: String)
    ensures
        r@ == spec_request_sk(thread_id@, request_id@),
{
    let mut out = concat_str("ChatThread#", thread_id);
    out.append("#DataRequest#");
    out.append(request_id);
    out
}

/// Recover the user id from a `User#<user_id>` partition key.
pub fn parse_user_pk(pk: &str) -> (r: String)
    requires
        exists|uid: Seq<char>| pk@ == spec_user_pk(uid),
    ensures
        pk@ == spec_user_pk(r@),
{
    proof {
        reveal_strlit("User#");
    }
    string_skip(pk, 5)
}

/// Recover the thread id from a `ChatThread#<thread_id>` sort key.
pub fn parse_thread_sk(sk: &str) -> (r: String)
    requires
        exists|tid: Seq<char>| sk@ == spec_thread_sk(tid),
    ensures
        sk@ == spec_thread_sk(r@),
{
    proof {
        reveal_strlit("ChatThread#");
    }
    string_skip(sk, 11)
}

/// Recover the query id from a `SqlQuery#<query_id>` sort key.
pub fn parse_query_sk(sk: &str) -> (r: String)
    requires
        exists|qid: Seq<char>| sk@ == spec_query_sk(qid),
    ensures
        sk@ == spec_query_sk(r@),
{
    proof {
        reveal_strlit("SqlQuery#");
    }
    string_skip(sk, 9)
}

/// Well-formedness of a message sort key: it was built from a
/// hash-free thread id and a sequence number under the width cap.
pub open spec fn wf_message_sk(sk: Seq<char>) -> bool {
    exists|tid: Seq<char>, seq: int|
        {
            &&& no_hash(tid)
            &&& 0 <= seq < 1000
            &&& sk == spec_message_sk(tid, seq)
        }
}

/// Recover the thread id and the sequence number from a
/// `ChatMessage#<thread_id>#<seq>` sort key.
pub fn parse_message_sk(sk: &str) -> (r: (String, u32))
    requires
        wf_message_sk(sk@),
    ensures
        no_hash(r.0@),
        r.1 < SEQ_LIMIT,
        sk@ == spec_message_sk(r.0@, r.1 as int),
{
    let ghost (tid, seq) = choose|tid: Seq<char>, seq: int|
        no_hash(tid) && 0 <= seq < 1000 && sk@ == spec_message_sk(tid, seq);
    proof {
        reveal_strlit("ChatMessage#");
        reveal_strlit("#");
        lemma_padded_seq_all_digits(seq);
        assert forall|j: int| 12 <= j < 12 + tid.len() implies #[trigger] sk@[j] != '#' by {
            assert(sk@[j] == tid[j - 12]);
        }
        assert(sk@[12 + tid.len() as int] == '#');
    }
    let i2 = match find_char_from(sk, 12, '#') {
        Some(i) => i,
        None => {
            proof {
                assert(sk@[12 + tid.len() as int] == '#');  // contradicts the None case
            }
            0
        },
    };
    proof {
        assert(i2 == 12 + tid.len());
    }
    let len = sk.unicode_len();
    let tid_str = sk.substring_char(12, i2).to_owned();
    let digits = sk.substring_char(i2 + 1, len);
    proof {
        assert(tid_str@ =~= tid);
        assert(digits@ =~= padded_seq(seq));
    }
    let n = parse_seq(digits);
    proof {
        lemma_padded_seq_round_trip(seq);
    }
    (tid_str, n)
}

/// Recover the thread id and the request id from a
/// `ChatThread#<thread_id>#DataRequest#<request_id>` sort key.
pub fn parse_request_sk(sk: &str) -> (r: (String, String))
    requires
        exists|tid: Seq<char>, rid: Seq<char>|
            no_hash(tid) && sk@ == spec_request_sk(tid, rid),
    ensures
        exists|tid: Seq<char>, rid: Seq<char>|
            no_hash(tid) && sk@ == spec_request_sk(tid, rid) && r.0@ == tid && r.1@ == rid,
{
    let ghost (tid, rid) = choose|tid: Seq<char>, rid: Seq<char>|
        no_hash(tid) && sk@ == spec_request_sk(tid, rid);
    proof {
        reveal_strlit("ChatThread#");
        reveal_strlit("#DataRequest#");
        assert forall|j: int| 11 <= j < 11 + tid.len() implies #[trigger] sk@[j] != '#' by {
            assert(sk@[j] == tid[j - 11]);
        }
        assert(sk@[11 + tid.len() as int] == '#');
    }
    let i2 = match find_char_from(sk, 11, '#') {
        Some(i) => i,
        None => {
            proof {
                assert(sk@[11 + tid.len() as int] == '#');  // contradicts the None case
            }
            0
        },
    };
    proof {
        assert(i2 == 11 + tid.len());
    }
    let len = sk.unicode_len();
    let tid_str = sk.substring_char(11, i2).to_owned();
    let rid_str = sk.substring_char(i2 + 13, len).to_owned();
    proof {
        assert(tid_str@ =~= tid);
        assert(rid_str@ =~= rid);
    }
    (tid_str, rid_str)
}

/// Appending the same prefix to both sides keeps lexicographic order.
pub proof fn lemma_lex_lt_append(p: Seq<char>, a: Seq<char>, b: Seq<char>)
    requires
        lex_lt(a, b),
    ensures
        lex_lt(p + a, p + b),
    decreases p.len(),
{
    if p.len() == 0 {
        assert(p + a =~= a);
        assert(p + b =~= b);
    } else {
        lemma_lex_lt_append(p.skip(1), a, b);
        assert((p + a).skip(1) =~= p.skip(1) + a);
        assert((p + b).skip(1) =~= p.skip(1) + b);
        assert((p + a)[0] == (p + b)[0]);
    }
}

/// The sequence number a message sort key was built from equals the
/// numeric parse of the key's zero-padded trailing segment.
pub proof fn lemma_message_seq_from_sk(tid: Seq<char>, seq: int)
    requires
        0 <= seq < 1000,
    ensures
        padded_seq_value(
            spec_message_sk(tid, seq).skip(spec_message_sk(tid, seq).len() - 3),
        ) == seq,
{
    reveal_strlit("ChatMessage#");
    reveal_strlit("#");
    let sk = spec_message_sk(tid, seq);
    assert(sk.skip(sk.len() - 3) =~= padded_seq(seq));
    lemma_padded_seq_round_trip(seq);
}

/// Whether `p` is a prefix of `s`.
pub open spec fn spec_starts_with(s: Seq<char>, p: Seq<char>) -> bool {
    s.len() >= p.len() && s.subrange(0, p.len() as int) == p
}

/// Whether `s` starts with `p`.
pub fn str_starts_with(s: &str, p: &str) -> (r: bool)
    ensures
        r == spec_starts_with(s@, p@),
{
    let slen = s.unicode_len();
    let plen = p.unicode_len();
    if slen < plen {
        return false;
    }
    let mut i: usize = 0;
    while i < plen
        invariant
            i <= plen,
            plen <= slen,
            slen == s@.len(),
            plen == p@.len(),
            forall|j: int| 0 <= j < i ==> s@[j] == #[trigger] p@[j],
        decreases plen - i,
    {
        if s.get_char(i) != p.get_char(i) {
            proof {
                assert(s@.subrange(0, p@.len() as int)[i as int] != p@[i as int]);
            }
            return false;
        }
        i += 1;
    }
    proof {
        assert(s@.subrange(0, p@.len() as int) =~= p@);
    }
    true
}

/// The relative order of two keys.
#[derive(Clone, Copy, Debug, PartialEq, Eq, Structural)]
pub enum KeyOrder {
    Less,
    Equal,
    Greater,
}

/// Dropping an equal prefix from both sides keeps lexicographic order.
proof fn lemma_lex_lt_skip(a: Seq<char>, b: Seq<char>, i: int)
    requires
        0 <= i <= a.len(),
        i <= b.len(),
        forall|j: int| 0 <= j < i ==> a[j] == #[trigger] b[j],
    ensures
        lex_lt(a, b) == lex_lt(a.skip(i), b.skip(i)),
    decreases i,
{
    if i > 0 {
        assert(a[0] == b[0]);
        assert(a.len() > 0 && b.len() > 0);
        lemma_lex_lt_skip(a.skip(1), b.skip(1), i - 1);
        assert(a.skip(1).skip(i - 1) =~= a.skip(i));
        assert(b.skip(1).skip(i - 1) =~= b.skip(i));
    } else {
        assert(a.skip(0) =~= a);
        assert(b.skip(0) =~= b);
    }
}

/// Compare two strings in lexicographic order of their characters.
pub fn compare_str(a: &str, b: &str) -> (r: KeyOrder)
    ensures
        r is Less <==> lex_lt(a@, b@),
        r is Equal <==> a@ == b@,
        r is Greater <==> lex_lt(b@, a@),
{
    let alen = a.unicode_len();
    let blen = b.unicode_len();
    let mut i: usize = 0;
    loop
        invariant
            i <= alen,
            i <= blen,
            alen == a@.len(),
            blen == b@.len(),
            forall|j: int| 0 <= j < i ==> a@[j] == #[trigger] b@[j],
        decreases alen - i,
    {
        if i >= alen && i >= blen {
            proof {
                assert(a@ =~= b@);
                lemma_lex_lt_skip(a@, b@, i as int);
                assert(a@.skip(i as int).len() == 0);
            }
            return KeyOrder::Equal;
        }
        if i >= alen {
            proof {
                lemma_lex_lt_skip(a@, b@, i as int);
                lemma_lex_lt_skip(b@, a@, i as int);
                assert(a@.skip(i as int).len() == 0 && b@.skip(i as int).len() > 0);
                assert(lex_lt(a@.skip(i as int), b@.skip(i as int)));
                assert(!lex_lt(b@.skip(i as int), a@.skip(i as int)));
                assert(a@.len() != b@.len());
            }
            return KeyOrder::Less;
        }
        if i >= blen {
            proof {
                lemma_lex_lt_skip(a@, b@, i as int);
                lemma_lex_lt_skip(b@, a@, i as int);
                assert(b@.skip(i as int).len() == 0 && a@.skip(i as int).len() > 0);
                assert(lex_lt(b@.skip(i as int), a@.skip(i as int)));
                assert(!lex_lt(a@.skip(i as int), b@.skip(i as int)));
                assert(a@.len() != b@.len());
            }
            return KeyOrder::Greater;
        }
        let ca = a.get_char(i);
        let cb = b.get_char(i);
        if ca != cb {
            proof {
                lemma_lex_lt_skip(a@, b@, i as int);
                lemma_lex_lt_skip(b@, a@, i as int);
                let sa = a@.skip(i as int);
                let sb = b@.skip(i as int);
                assert(sa[0] == ca && sb[0] == cb);
                assert(sa.len() > 0 && sb.len() > 0);
                assert(lex_lt(sa, sb) == ((ca as int) < (cb as int)));
                assert(lex_lt(sb, sa) == ((cb as int) < (ca as int)));
                assert(a@[i as int] != b@[i as int]);
                assert((ca as u32) as int == ca as int);
                assert((cb as u32) as int == cb as int);
            }
            if (ca as u32) < (cb as u32) {
                return KeyOrder::Less;
            } else {
                return KeyOrder::Greater;
            }
        }
        i += 1;
    }
}

/// Lexicographic order is transitive.
pub proof fn lemma_lex_lt_trans(a: Seq<char>, b: Seq<char>, c: Seq<char>)
    requires
        lex_lt(a, b),
        lex_lt(b, c),
    ensures
        lex_lt(a, c),
    decreases a.len() + b.len() + c.len(),
{
    if a.len() == 0 {
        assert(c.len() > 0);
    } else {
        assert(b.len() > 0 && c.len() > 0);
        if a[0] == b[0] && b[0] == c[0] {
            lemma_lex_lt_trans(a.skip(1), b.skip(1), c.skip(1));
        }
    }
}

/// Lexicographic order is irreflexive on equal strings and asymmetric.
pub proof fn lemma_lex_lt_asymmetric(a: Seq<char>, b: Seq<char>)
    ensures
        !(lex_lt(a, b) && lex_lt(b, a)),
        lex_lt(a, b) ==> a != b,
    decreases a.len() + b.len(),
{
    if a.len() > 0 && b.len() > 0 && a[0] == b[0] {
        lemma_lex_lt_asymmetric(a.skip(1), b.skip(1));
    }
}

/// Within one thread, the message sort keys are strictly increasing in
/// lexicographic order exactly as the sequence numbers increase.
pub proof fn lemma_message_sk_order(tid: Seq<char>, i: int, j: int)
    requires
        0 <= i < j < 1000,
    ensures
        lex_lt(spec_message_sk(tid, i), spec_message_sk(tid, j)),
{
    let p = "ChatMessage#"@ + tid + "#"@;
    lemma_padded_seq_lex_order(i, j);
    lemma_lex_lt_append(p, padded_seq(i), padded_seq(j));
    assert(spec_message_sk(tid, i) =~= p + padded_seq(i));
    assert(spec_message_sk(tid, j) =~= p + padded_seq(j));
}

} // verus!
