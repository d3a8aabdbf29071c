//! Character-level helpers on strings: comparison, prefixes, whitespace
//! trimming, splitting on a separator, decimal numbers.
use vstd::prelude::*;

verus! {

/// Whether a character has the Unicode `White_Space` property, which is what
/// `char::is_whitespace` and `str::trim` go by.
pub open spec fn is_whitespace(c: char) -> bool {
    let v = c as u32;
    ||| 0x09 <= v <= 0x0D
    ||| v == 0x20
    ||| v == 0x85
    ||| v == 0xA0
    ||| v == 0x1680
    ||| 0x2000 <= v <= 0x200A
    ||| v == 0x2028
    ||| v == 0x2029
    ||| v == 0x202F
    ||| v == 0x205F
    ||| v == 0x3000
}

/// Whether a character is Unicode white space.
pub fn char_is_whitespace(c: char) -> (b: bool)
    ensures
        b == is_whitespace(c),
{
    let v = c as u32;
    (0x09 <= v && v <= 0x0D) || v == 0x20 || v == 0x85 || v == 0xA0 || v == 0x1680 || (0x2000
        <= v && v <= 0x200A) || v == 0x2028 || v == 0x2029 || v == 0x202F || v == 0x205F || v
        == 0x3000
}

/// A sequence without its leading white space.
pub open spec fn trim_start(s: Seq<char>) -> Seq<char>
    decreases s.len(),
{
    if s.len() > 0 && is_whitespace(s[0]) {
        trim_start(s.drop_first())
    } else {
        s
    }
}

/// A sequence without its trailing white space.
pub open spec fn trim_end(s: Seq<char>) -> Seq<char>
    decreases s.len(),
{
    if s.len() > 0 && is_whitespace(s.last()) {
        trim_end(s.drop_last())
    } else {
        s
    }
}

/// A sequence without its leading and trailing white space.
pub open spec fn trim(s: Seq<char>) -> Seq<char> {
    trim_end(trim_start(s))
}

/// The pieces of `s` between occurrences of `sep`, empty pieces included;
/// there is always at least one piece.
pub open spec fn split_on(s: Seq<char>, sep: char) -> Seq<Seq<char>>
    decreases s.len(),
{
    if s.len() == 0 {
        seq![Seq::<char>::empty()]
    } else {
        let init = split_on(s.drop_last(), sep);
        if s.last() == sep {
            init.push(Seq::<char>::empty())
        } else {
            init.update(init.len() - 1, init.last().push(s.last()))
        }
    }
}

/// The index of the last occurrence of `c` in `s`, or -1.
pub open spec fn last_index_of(s: Seq<char>, c: char) -> int
    decreases s.len(),
{
    if s.len() == 0 {
        -1
    } else if s.last() == c {
        s.len() - 1
    } else {
        last_index_of(s.drop_last(), c)
    }
}

/// Whether every character is an ASCII digit.
pub open spec fn all_digits(s: Seq<char>) -> bool {
    forall|i: int| 0 <= i < s.len() ==> '0' <= #[trigger] s[i] <= '9'
}

/// The number that a sequence of ASCII digits spells in base ten.
pub open spec fn digits_value(s: Seq<char>) -> nat
    decreases s.len(),
{
    if s.len() == 0 {
        0
    } else {
        digits_value(s.drop_last()) * 10 + ((s.last() as int - '0' as int) as nat)
    }
}

/// What `u16::from_str` gives: an optional `+`, then one or more ASCII
/// digits whose value fits in 16 bits.
pub open spec fn parse_u16_spec(s: Seq<char>) -> Option<u16> {
    let d = if s.len() > 0 && s[0] == '+' {
        s.drop_first()
    } else {
        s
    };
    if d.len() == 0 || !all_digits(d) || digits_value(d) > u16::MAX {
        None
    } else {
        Some(digits_value(d) as u16)
    }
}

/// The ASCII digit for a number below ten.
pub open spec fn digit_char(d: nat) -> char {
    ('0' as int + d) as char
}

/// The decimal form of a natural number, without leading zeros.
pub open spec fn decimal(n: nat) -> Seq<char>
    decreases n,
{
    if n < 10 {
        seq![digit_char(n)]
    } else {
        decimal(n / 10).push(digit_char(n % 10))
    }
}

proof fn lemma_split_on_nonempty(s: Seq<char>, sep: char)
    ensures
        split_on(s, sep).len() >= 1,
    decreases s.len(),
{
    if s.len() > 0 {
        lemma_split_on_nonempty(s.drop_last(), sep);
    }
}

proof fn lemma_trim_start_shift(s: Seq<char>, i: int)
    requires
        0 <= i < s.len(),
        is_whitespace(s[i]),
    ensures
        trim_start(s.subrange(i, s.len() as int)) == trim_start(s.subrange(i + 1, s.len() as int)),
{
    let t = s.subrange(i, s.len() as int);
    assert(t.drop_first() =~= s.subrange(i + 1, s.len() as int));
}

proof fn lemma_trim_end_shift(s: Seq<char>, j: int)
    requires
        0 < j <= s.len(),
        is_whitespace(s[j - 1]),
    ensures
        trim_end(s.subrange(0, j)) == trim_end(s.subrange(0, j - 1)),
{
    let t = s.subrange(0, j);
    assert(t.drop_last() =~= s.subrange(0, j - 1));
}

/// Whether two strings hold the same characters.
pub fn str_equals(a: &str, b: &str) -> (r: bool)
    ensures
        r == (a@ == b@),
{
    let n = a.unicode_len();
    if n != b.unicode_len() {
        return false;
    }
    let mut i: usize = 0;
    while i < n
        invariant
            n == a@.len(),
            n == b@.len(),
            i <= n,
            forall|j: int| 0 <= j < i ==> a@[j] == b@[j],
        decreases n - i,
    {
        if a.get_char(i) != b.get_char(i) {
            return false;
        }
        i = i + 1;
    }
    assert(a@ =~= b@);
    true
}

/// Whether `s` begins with `prefix`.
pub fn starts_with(s: &str, prefix: &str) -> (r: bool)
    ensures
        r == (prefix@.len() <= s@.len() && s@.subrange(0, prefix@.len() as int) == prefix@),
{
    let n = prefix.unicode_len();
    if n > s.unicode_len() {
        return false;
    }
    let mut i: usize = 0;
    while i < n
        invariant
            n == prefix@.len(),
            n <= s@.len(),
            i <= n,
            forall|j: int| 0 <= j < i ==> s@[j] == prefix@[j],
        decreases n - i,
    {
        if s.get_char(i) != prefix.get_char(i) {
            assert(s@.subrange(0, n as int)[i as int] != prefix@[i as int]);
            return false;
        }
        i = i + 1;
    }
    assert(s@.subrange(0, n as int) =~= prefix@);
    true
}

/// The string without its leading and trailing white space.
pub fn trim_str(s: &str) -> (t: &str)
    ensures
        t@ == trim(s@),
{
    let n = s.unicode_len();
    let mut i: usize = 0;
    proof {
        assert(s@.subrange(0, n as int) =~= s@);
    }
    while i < n && char_is_whitespace(s.get_char(i))
        invariant
            n == s@.len(),
            i <= n,
            trim_start(s@.subrange(i as int, n as int)) == trim_start(s@),
        decreases n - i,
    {
        proof {
            lemma_trim_start_shift(s@, i as int);
        }
        i = i + 1;
    }
    let ghost u = s@.subrange(i as int, n as int);
    assert(trim_start(u) == u) by {
        if u.len() > 0 {
            assert(u[0] == s@[i as int]);
        }
    }
    let mut j: usize = n;
    proof {
        assert(u.subrange(0, (j - i) as int) =~= u);
    }
    while j > i && char_is_whitespace(s.get_char(j - 1))
        invariant
            n == s@.len(),
            i <= j <= n,
            u == s@.subrange(i as int, n as int),
            trim_end(u.subrange(0, (j - i) as int)) == trim_end(u),
        decreases j,
    {
        proof {
            assert(u[(j - 1 - i) as int] == s@[(j - 1) as int]);
            lemma_trim_end_shift(u, (j - i) as int);
        }
        j = j - 1;
    }
    let ghost w = u.subrange(0, (j - i) as int);
    assert(trim_end(w) == w) by {
        if w.len() > 0 {
            assert(w.last() == s@[(j - 1) as int]);
        }
    }
    let t = s.substring_char(i, j);
    assert(t@ =~= w);
    t
}

/// The pieces of `s` between commas, each without surrounding white space,
/// the empty ones left out.
pub open spec fn comma_list(s: Seq<char>) -> Seq<Seq<char>> {
    nonempty_only(split_on(s, ',').map_values(|p: Seq<char>| trim(p)))
}

/// The non-empty members of a sequence, in order.
pub open spec fn nonempty_only(s: Seq<Seq<char>>) -> Seq<Seq<char>>
    decreases s.len(),
{
    if s.len() == 0 {
        s
    } else if s.last().len() == 0 {
        nonempty_only(s.drop_last())
    } else {
        nonempty_only(s.drop_last()).push(s.last())
    }
}

/// The view of each string of a vector.
pub open spec fn string_views(v: Seq<String>) -> Seq<Seq<char>> {
    v.map_values(|s: String| s@)
}

/// The pieces of `s` between occurrences of `sep`.
pub fn split_str<'a>(s: &'a str, sep: char) -> (pieces: Vec<&'a str>)
    ensures
        pieces@.map_values(|p: &str| p@) == split_on(s@, sep),
{
    let n = s.unicode_len();
    let mut pieces: Vec<&'a str> = Vec::new();
    let mut start: usize = 0;
    let mut i: usize = 0;
    proof {
        assert(s@.subrange(0, 0) =~= Seq::<char>::empty());
        assert(pieces@.map_values(|p: &str| p@).push(s@.subrange(0, 0)) =~= seq![Seq::<char>::empty()]);
    }
    while i < n
        invariant
            n == s@.len(),
            start <= i <= n,
            pieces@.map_values(|p: &str| p@).push(s@.subrange(start as int, i as int)) == split_on(
                s@.subrange(0, i as int),
                sep,
            ),
        decreases n - i,
    {
        let c = s.get_char(i);
        let ghost prev = s@.subrange(0, i as int);
        let ghost next = s@.subrange(0, i + 1);
        proof {
            assert(next.drop_last() =~= prev);
            assert(next.last() == c);
            lemma_split_on_nonempty(prev, sep);
        }
        if c == sep {
            let ghost pv = pieces@.map_values(|p: &str| p@);
            let piece = s.substring_char(start, i);
            pieces.push(piece);
            start = i + 1;
            proof {
                assert(pieces@.map_values(|p: &str| p@) =~= pv.push(piece@));
                assert(s@.subrange(start as int, (i + 1) as int) =~= Seq::<char>::empty());
            }
        } else {
            proof {
                let old_views = split_on(prev, sep);
                assert(s@.subrange(start as int, (i + 1) as int) =~= s@.subrange(
                    start as int,
                    i as int,
                ).push(c));
                assert(pieces@.map_values(|p: &str| p@).push(s@.subrange(start as int, (i + 1) as int))
                    =~= old_views.update(old_views.len() - 1, old_views.last().push(c)));
            }
        }
        i = i + 1;
    }
    let last = s.substring_char(start, n);
    pieces.push(last);
    proof {
        assert(s@.subrange(0, n as int) =~= s@);
        assert(pieces@.map_values(|p: &str| p@) =~= pieces@.drop_last().map_values(|p: &str| p@).push(s@.subrange(start as int, n as int)));
    }
    pieces
}

/// The comma-separated members of `s`, trimmed, the empty ones left out.
pub fn comma_separated(s: &str) -> (items: Vec<String>)
    ensures
        string_views(items@) == comma_list(s@),
{
    let pieces = split_str(s, ',');
    let ghost piece_views = pieces@.map_values(|p: &str| p@);
    let ghost trimmed = piece_views.map_values(|p: Seq<char>| trim(p));
    let mut items: Vec<String> = Vec::new();
    let mut k: usize = 0;
    while k < pieces.len()
        invariant
            piece_views == pieces@.map_values(|p: &str| p@),
            trimmed == piece_views.map_values(|p: Seq<char>| trim(p)),
            k <= pieces@.len(),
            string_views(items@) == nonempty_only(trimmed.subrange(0, k as int)),
        decreases pieces@.len() - k,
    {
        let t = trim_str(pieces[k]);
        proof {
            assert(trimmed.subrange(0, (k + 1) as int).drop_last() =~= trimmed.subrange(0, k as int));
            assert(trimmed.subrange(0, (k + 1) as int).last() == t@);
        }
        if t.unicode_len() > 0 {
            items.push(String::from_str(t));
            proof {
                assert(string_views(items@) =~= string_views(items@.drop_last()).push(t@));
            }
        }
        k = k + 1;
    }
    proof {
        assert(trimmed.subrange(0, pieces@.len() as int) =~= trimmed);
    }
    items
}

/// The index of the last occurrence of `c` in `s`.
pub fn rfind_char(s: &str, c: char) -> (r: Option<usize>)
    ensures
        r is None <==> last_index_of(s@, c) == -1,
        r matches Some(i) ==> i == last_index_of(s@, c) && i < s@.len(),
{
    let n = s.unicode_len();
    let mut j: usize = n;
    proof {
        assert(s@.subrange(0, n as int) =~= s@);
    }
    while j > 0
        invariant
            n == s@.len(),
            j <= n,
            last_index_of(s@.subrange(0, j as int), c) == last_index_of(s@, c),
        decreases j,
    {
        let ghost t = s@.subrange(0, j as int);
        if s.get_char(j - 1) == c {
            assert(t.last() == c);
            return Some(j - 1);
        }
        assert(t.drop_last() =~= s@.subrange(0, j - 1));
        j = j - 1;
    }
    None
}

proof fn lemma_digits_value_exceeds(s: Seq<char>, i: int)
    requires
        0 < i <= s.len(),
        all_digits(s.subrange(0, i)),
        digits_value(s.subrange(0, i)) > u16::MAX,
    ensures
        !all_digits(s) || digits_value(s) > u16::MAX,
    decreases s.len() - i,
{
    if i < s.len() {
        if all_digits(s.subrange(0, i + 1)) {
            let t = s.subrange(0, i + 1);
            assert(t.drop_last() =~= s.subrange(0, i));
            lemma_digits_value_exceeds(s, i + 1);
        } else {
            let j = choose|j: int| 0 <= j < i + 1 && !('0' <= #[trigger] s.subrange(0, i + 1)[j] <= '9');
            if j < i {
                assert(s.subrange(0, i + 1)[j] == s.subrange(0, i)[j]);
            }
            assert(s.subrange(0, i + 1)[j] == s[j]);
        }
    } else {
        assert(s.subrange(0, i) =~= s);
    }
}

/// Parses a port number as `u16::from_str` does.
pub fn parse_u16(s: &str) -> (r: Option<u16>)
    ensures
        r == parse_u16_spec(s@),
{
    let n = s.unicode_len();
    let mut i: usize = 0;
    if n > 0 && s.get_char(0) == '+' {
        i = 1;
    }
    let ghost d = if s@.len() > 0 && s@[0] == '+' {
        s@.drop_first()
    } else {
        s@
    };
    let ghost off = i as int;
    assert(d =~= s@.subrange(off, n as int));
    if i == n {
        return None;
    }
    let mut acc: u32 = 0;
    while i < n
        invariant
            n == s@.len(),
            d == s@.subrange(off, n as int),
            d == (if s@.len() > 0 && s@[0] == '+' {
                s@.drop_first()
            } else {
                s@
            }),
            0 <= off <= i <= n,
            all_digits(d.subrange(0, i - off)),
            acc == digits_value(d.subrange(0, i - off)),
            acc <= u16::MAX,
        decreases n - i,
    {
        let c = s.get_char(i);
        let v = c as u32;
        let ghost before = d.subrange(0, i - off);
        let ghost after = d.subrange(0, i + 1 - off);
        proof {
            assert(after.drop_last() =~= before);
            assert(after.last() == c);
        }
        if v < 48 || v > 57 {
            proof {
                assert(d[i - off] == c);
                assert(!('0' <= d[i - off] <= '9'));
            }
            return None;
        }
        acc = acc * 10 + (v - 48);
        proof {
            assert forall|j: int| 0 <= j < after.len() implies '0' <= #[trigger] after[j] <= '9' by {
                if j < before.len() {
                    assert(after[j] == before[j]);
                }
            }
            assert(digits_value(after) == acc);
        }
        if acc > 65535 {
            proof {
                lemma_digits_value_exceeds(d, i + 1 - off);
            }
            return None;
        }
        i = i + 1;
    }
    proof {
        assert(d.subrange(0, n - off) =~= d);
    }
    Some(acc as u16)
}

/// The one-character string of an ASCII digit.
fn digit_str(d: u16) -> (s: &'static str)
    requires
        d < 10,
    ensures
        s@ == seq![digit_char(d as nat)],
{
    if d == 0 {
        proof { reveal_strlit("0"); }
        "0"
    } else if d == 1 {
        proof { reveal_strlit("1"); }
        "1"
    } else if d == 2 {
        proof { reveal_strlit("2"); }
        "2"
    } else if d == 3 {
        proof { reveal_strlit("3"); }
        "3"
    } else if d == 4 {
        proof { reveal_strlit("4"); }
        "4"
    } else if d == 5 {
        proof { reveal_strlit("5"); }
        "5"
    } else if d == 6 {
        proof { reveal_strlit("6"); }
        "6"
    } else if d == 7 {
        proof { reveal_strlit("7"); }
        "7"
    } else if d == 8 {
        proof { reveal_strlit("8"); }
        "8"
    } else {
        proof { reveal_strlit("9"); }
        "9"
    }
}

/// The decimal form of a 16-bit number, as `format!("{}", n)` writes it.
pub fn u16_to_decimal(n: u16) -> (s: String)
    ensures
        s@ == decimal(n as nat),
    decreases n,
{
    if n < 10 {
        String::from_str(digit_str(n))
    } else {
        let head = u16_to_decimal(n / 10);
        head.concat(digit_str(n % 10))
    }
}

} // verus!

verus! {

/// The path `name` joined onto `base`, as `PathBuf::push` does on Unix: an
/// absolute `name` replaces `base`; otherwise a separator goes between them
/// unless `base` is empty or already ends in one.
pub open spec fn joined_path(base: Seq<char>, name: Seq<char>) -> Seq<char> {
    if name.len() > 0 && name[0] == '/' {
        name
    } else if base.len() == 0 || base.last() == '/' {
        base + name
    } else {
        base + "/"@ + name
    }
}

/// Joins a path onto a base path.
pub fn join_path(base: &str, name: &str) -> (p: String)
    ensures
        p@ == joined_path(base@, name@),
{
    let nb = base.unicode_len();
    if name.unicode_len() > 0 && name.get_char(0) == '/' {
        String::from_str(name)
    } else if nb == 0 || base.get_char(nb - 1) == '/' {
        String::from_str(base).concat(name)
    } else {
        String::from_str(base).concat("/").concat(name)
    }
}

} // verus!

verus! {

/// The decimal form of a number is a non-empty run of digits that spells the
/// number.
pub proof fn lemma_decimal_digits(n: nat)
    ensures
        decimal(n).len() > 0,
        all_digits(decimal(n)),
        digits_value(decimal(n)) == n,
        decimal(n)[0] != '+',
    decreases n,
{
    assert('0' as int == 48);
    assert(digit_char(n % 10) as int == 48 + n % 10);
    if n < 10 {
        assert(decimal(n) == seq![digit_char(n)]);
        assert(decimal(n).drop_last() =~= Seq::<char>::empty());
        assert(digits_value(decimal(n).drop_last()) == 0);
        assert(decimal(n).last() == digit_char(n));
    } else {
        lemma_decimal_digits(n / 10);
        let d = decimal(n);
        assert(d.drop_last() =~= decimal(n / 10));
        assert(d.last() == digit_char(n % 10));
        assert(digits_value(d) == digits_value(decimal(n / 10)) * 10 + (n % 10));
        assert(n == (n / 10) * 10 + n % 10);
        assert forall|i: int| 0 <= i < d.len() implies '0' <= #[trigger] d[i] <= '9' by {
            if i < d.len() - 1 {
                assert(d[i] == decimal(n / 10)[i]);
            }
        }
        assert(d[0] == decimal(n / 10)[0]);
    }
}

/// A run of digits holds no colon.
pub proof fn lemma_digits_no_colon(s: Seq<char>)
    requires
        all_digits(s),
    ensures
        last_index_of(s, ':') == -1,
    decreases s.len(),
{
    if s.len() > 0 {
        assert(s.drop_last().len() < s.len());
        assert forall|i: int| 0 <= i < s.drop_last().len() implies '0' <= #[trigger] s.drop_last()[i] <= '9' by {
            assert(s.drop_last()[i] == s[i]);
        }
        lemma_digits_no_colon(s.drop_last());
        assert('0' <= s[s.len() - 1] <= '9');
    }
}

/// The last colon of `a + b` where `b` holds none is that of `a`.
pub proof fn lemma_last_index_of_append(a: Seq<char>, b: Seq<char>, c: char)
    requires
        last_index_of(b, c) == -1,
    ensures
        last_index_of(a + b, c) == last_index_of(a, c),
    decreases b.len(),
{
    if b.len() == 0 {
        assert(a + b =~= a);
    } else {
        assert((a + b).drop_last() =~= a + b.drop_last());
        assert((a + b).last() == b.last());
        lemma_last_index_of_append(a, b.drop_last(), c);
    }
}

/// The decimal form of a number, as `u16_to_decimal` writes it, parses
/// back, as `parse_u16` reads it, to the same number.
pub proof fn law_decimal_parses_back(port: u16)
    ensures
        parse_u16_spec(decimal(port as nat)) == Some(port),
{
    lemma_decimal_digits(port as nat);
}

proof fn lemma_trim_start_shape(s: Seq<char>)
    ensures
        trim_start(s).len() == 0 || !is_whitespace(trim_start(s)[0]),
        trim_start(s).len() <= s.len(),
        trim_start(s) == s.subrange(s.len() - trim_start(s).len(), s.len() as int),
    decreases s.len(),
{
    if s.len() > 0 && is_whitespace(s[0]) {
        lemma_trim_start_shape(s.drop_first());
        assert(s.drop_first().subrange(s.drop_first().len() - trim_start(s).len(), s.drop_first().len() as int)
            =~= s.subrange(s.len() - trim_start(s).len(), s.len() as int));
    } else {
        assert(s.subrange(0, s.len() as int) =~= s);
    }
}

proof fn lemma_trim_end_shape(s: Seq<char>)
    ensures
        trim_end(s).len() == 0 || !is_whitespace(trim_end(s).last()),
        trim_end(s).len() <= s.len(),
        trim_end(s) == s.subrange(0, trim_end(s).len() as int),
    decreases s.len(),
{
    if s.len() > 0 && is_whitespace(s.last()) {
        lemma_trim_end_shape(s.drop_last());
        assert(s.drop_last().subrange(0, trim_end(s).len() as int) =~= s.subrange(0, trim_end(s).len() as int));
    } else {
        assert(s.subrange(0, s.len() as int) =~= s);
    }
}

/// Trimming twice is trimming once.
pub proof fn lemma_trim_idempotent(s: Seq<char>)
    ensures
        trim(trim(s)) == trim(s),
{
    let t = trim_start(s);
    let u = trim_end(t);
    lemma_trim_start_shape(s);
    lemma_trim_end_shape(t);
    if u.len() > 0 {
        assert(u[0] == t[0]);
        assert(trim_start(u) == u);
        lemma_trim_end_shape(u);
        assert(trim_end(u) == u);
    } else {
        assert(trim_start(u) == u);
        assert(trim_end(u) == u);
    }
}

proof fn lemma_nonempty_only_members(s: Seq<Seq<char>>, i: int)
    requires
        0 <= i < nonempty_only(s).len(),
    ensures
        nonempty_only(s)[i].len() > 0,
        exists|j: int| 0 <= j < s.len() && s[j] == #[trigger] nonempty_only(s)[i],
    decreases s.len(),
{
    if s.len() > 0 {
        let init = nonempty_only(s.drop_last());
        if s.last().len() == 0 {
            lemma_nonempty_only_members(s.drop_last(), i);
            let j = choose|j: int| 0 <= j < s.drop_last().len() && s.drop_last()[j] == #[trigger] init[i];
            assert(s[j] == s.drop_last()[j]);
        } else if i < init.len() {
            lemma_nonempty_only_members(s.drop_last(), i);
            let j = choose|j: int| 0 <= j < s.drop_last().len() && s.drop_last()[j] == #[trigger] init[i];
            assert(s[j] == s.drop_last()[j]);
        } else {
            assert(s[s.len() - 1] == nonempty_only(s)[i]);
        }
    }
}

/// Each member of a comma-separated list is non-empty and has no white space
/// around it.
pub proof fn law_comma_list_members_trimmed(s: Seq<char>, i: int)
    requires
        0 <= i < comma_list(s).len(),
    ensures
        comma_list(s)[i].len() > 0,
        trim(comma_list(s)[i]) == comma_list(s)[i],
{
    let pieces = split_on(s, ',').map_values(|p: Seq<char>| trim(p));
    lemma_nonempty_only_members(pieces, i);
    let j = choose|j: int| 0 <= j < pieces.len() && pieces[j] == #[trigger] nonempty_only(pieces)[i];
    lemma_trim_idempotent(split_on(s, ',')[j]);
}

} // verus!
