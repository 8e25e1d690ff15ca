use vstd::prelude::*;

verus! {

// ---------------------------------------------------------------------------
// Specifications
// ---------------------------------------------------------------------------

/// Unicode `White_Space`: the characters that `char::is_whitespace` accepts.
pub open spec fn is_ws(c: char) -> bool {
    let u = c as u32;
    ||| 0x09 <= u <= 0x0d
    ||| u == 0x20
    ||| u == 0x85
    ||| u == 0xa0
    ||| u == 0x1680
    ||| 0x2000 <= u <= 0x200a
    ||| u == 0x2028
    ||| u == 0x2029
    ||| u == 0x202f
    ||| u == 0x205f
    ||| u == 0x3000
}

/// `s` without its leading white space.
pub open spec fn trim_start(s: Seq<char>) -> Seq<char>
    decreases s.len(),
{
    if s.len() > 0 && is_ws(s[0]) {
        trim_start(s.drop_first())
    } else {
        s
    }
}

/// `s` without its trailing white space.
pub open spec fn trim_end(s: Seq<char>) -> Seq<char>
    decreases s.len(),
{
    if s.len() > 0 && is_ws(s.last()) {
        trim_end(s.drop_last())
    } else {
        s
    }
}

/// `s` without leading and trailing white space (`str::trim`).
pub open spec fn trim(s: Seq<char>) -> Seq<char> {
    trim_end(trim_start(s))
}

/// `s` holds nothing but white space (`s.trim().is_empty()`).
pub open spec fn is_blank(s: Seq<char>) -> bool {
    trim(s).len() == 0
}

/// ASCII upper-case letters mapped to lower case, all else kept.
pub open spec fn lower_char(c: char) -> char {
    if 'A' <= c && c <= 'Z' {
        ((c as u8) + 32) as char
    } else {
        c
    }
}

/// `str::to_ascii_lowercase`.
pub open spec fn lower(s: Seq<char>) -> Seq<char> {
    s.map_values(|c: char| lower_char(c))
}

/// `needle` occurs in `hay` starting at index `i`.
pub open spec fn occurs_at(hay: Seq<char>, needle: Seq<char>, i: int) -> bool {
    0 <= i && i + needle.len() <= hay.len() && hay.subrange(i, i + needle.len()) == needle
}

/// `hay` contains `needle` (`str::contains`).
pub open spec fn contains(hay: Seq<char>, needle: Seq<char>) -> bool {
    exists|i: int| #[trigger] occurs_at(hay, needle, i)
}

/// `s` begins with `p` (`str::starts_with`).
pub open spec fn starts_with(s: Seq<char>, p: Seq<char>) -> bool {
    p.len() <= s.len() && s.take(p.len() as int) == p
}

/// `str::trim_start_matches` with a string pattern: every leading copy of
/// `pat` removed.
pub open spec fn trim_start_matches(s: Seq<char>, pat: Seq<char>) -> Seq<char>
    decreases s.len(),
{
    if pat.len() > 0 && starts_with(s, pat) {
        trim_start_matches(s.skip(pat.len() as int), pat)
    } else {
        s
    }
}

/// The pieces of `list` with `sep` between each two (`[String]::join`).
pub open spec fn join(list: Seq<Seq<char>>, sep: Seq<char>) -> Seq<char>
    decreases list.len(),
{
    if list.len() == 0 {
        Seq::empty()
    } else if list.len() == 1 {
        list[0]
    } else {
        join(list.drop_last(), sep) + sep + list.last()
    }
}

/// `str::replace`: every non-overlapping occurrence of `from`, leftmost
/// first, replaced by `to`.
pub open spec fn replace(s: Seq<char>, from: Seq<char>, to: Seq<char>) -> Seq<char>
    recommends
        from.len() > 0,
    decreases s.len(),
{
    if s.len() == 0 || from.len() == 0 {
        s
    } else if starts_with(s, from) {
        to + replace(s.skip(from.len() as int), from, to)
    } else {
        seq![s[0]] + replace(s.drop_first(), from, to)
    }
}

/// The decimal digit for `d < 10`.
pub open spec fn digit(d: nat) -> char {
    ((d + 48) as u8) as char
}

/// Decimal notation of a natural number, without leading zeros.
pub open spec fn decimal_nat(n: nat) -> Seq<char>
    decreases n,
{
    if n < 10 {
        seq![digit(n)]
    } else {
        decimal_nat(n / 10).push(digit(n % 10))
    }
}

/// Decimal notation of an integer, as `Display` writes it.
pub open spec fn decimal(n: int) -> Seq<char> {
    if n < 0 {
        seq!['-'] + decimal_nat((-n) as nat)
    } else {
        decimal_nat(n as nat)
    }
}

// ---------------------------------------------------------------------------
// Conversions
// ---------------------------------------------------------------------------

/// Appends one character to a string (`String::push`).
#[verifier::external_body]
fn push_char(s: &mut String, c: char)
    ensures
        final(s)@ == old(s)@.push(c),
{
    s.push(c);
}

/// The characters of a string slice, in order.
pub fn chars_of(s: &str) -> (v: Vec<char>)
    ensures
        v@ == s@,
{
    let mut v: Vec<char> = Vec::new();
    for c in it: s.chars()
        invariant
            v@ == it.seq().take(it.index() as int),
    {
        v.push(c);
    }
    v
}

/// A string holding the given characters.
pub fn string_of(v: &[char]) -> (s: String)
    ensures
        s@ == v@,
{
    let mut s = String::new();
    let mut i: usize = 0;
    while i < v.len()
        invariant
            i <= v.len(),
            s@ == v@.take(i as int),
        decreases v.len() - i,
    {
        push_char(&mut s, v[i]);
        assert(v@.take(i as int).push(v@[i as int]) =~= v@.take(i + 1));
        i = i + 1;
    }
    assert(v@.take(v.len() as int) =~= v@);
    s
}

/// An owned copy of a string slice.
pub fn owned(s: &str) -> (r: String)
    ensures
        r@ == s@,
{
    let v = chars_of(s);
    string_of(v.as_slice())
}

/// `v[i..j]` as a vector.
pub fn slice_of(v: &[char], i: usize, j: usize) -> (r: Vec<char>)
    requires
        i <= j <= v@.len(),
    ensures
        r@ == v@.subrange(i as int, j as int),
{
    let mut r: Vec<char> = Vec::new();
    let mut k: usize = i;
    while k < j
        invariant
            i <= k <= j <= v@.len(),
            r@ == v@.subrange(i as int, k as int),
        decreases j - k,
    {
        r.push(v[k]);
        assert(v@.subrange(i as int, k as int).push(v@[k as int]) =~= v@.subrange(
            i as int,
            k + 1,
        ));
        k = k + 1;
    }
    r
}

/// `a` followed by `b`.
pub fn concat(a: &[char], b: &[char]) -> (r: Vec<char>)
    ensures
        r@ == a@ + b@,
{
    let mut r = slice_of(a, 0, a.len());
    let mut k: usize = 0;
    while k < b.len()
        invariant
            k <= b@.len(),
            r@ == a@ + b@.take(k as int),
        decreases b.len() - k,
    {
        r.push(b[k]);
        assert((a@ + b@.take(k as int)).push(b@[k as int]) =~= a@ + b@.take(k + 1));
        k = k + 1;
    }
    assert(b@.take(b@.len() as int) =~= b@);
    assert(a@.subrange(0, a@.len() as int) =~= a@);
    r
}

/// Two strings are equal.
pub fn same(a: &[char], b: &[char]) -> (r: bool)
    ensures
        r == (a@ == b@),
{
    if a.len() != b.len() {
        return false;
    }
    let mut k: usize = 0;
    while k < a.len()
        invariant
            a@.len() == b@.len(),
            k <= a@.len(),
            forall|m: int| 0 <= m < k ==> a@[m] == b@[m],
        decreases a.len() - k,
    {
        if a[k] != b[k] {
            return false;
        }
        k = k + 1;
    }
    assert(a@ =~= b@);
    true
}

// ---------------------------------------------------------------------------
// White space
// ---------------------------------------------------------------------------

/// `char::is_whitespace`.
pub fn is_whitespace(c: char) -> (r: bool)
    ensures
        r == is_ws(c),
{
    let u = c as u32;
    (0x09 <= u && u <= 0x0d) || u == 0x20 || u == 0x85 || u == 0xa0 || u == 0x1680 || (0x2000 <= u
        && u <= 0x200a) || u == 0x2028 || u == 0x2029 || u == 0x202f || u == 0x205f || u == 0x3000
}

/// `str::trim`.
pub fn trimmed(v: &[char]) -> (r: Vec<char>)
    ensures
        r@ == trim(v@),
{
    let mut i: usize = 0;
    assert(v@.skip(0) =~= v@);
    while i < v.len() && is_whitespace(v[i])
        invariant
            i <= v@.len(),
            trim_start(v@) == trim_start(v@.skip(i as int)),
        decreases v.len() - i,
    {
        assert(v@.skip(i as int).drop_first() =~= v@.skip(i + 1));
        i = i + 1;
    }
    let ghost front = v@.skip(i as int);
    assert(trim_start(front) == front);
    let mut j: usize = v.len();
    while j > i && is_whitespace(v[j - 1])
        invariant
            i <= j <= v@.len(),
            front == v@.skip(i as int),
            trim_end(front) == trim_end(v@.subrange(i as int, j as int)),
        decreases j,
    {
        assert(v@.subrange(i as int, j as int).drop_last() =~= v@.subrange(i as int, j - 1));
        j = j - 1;
    }
    assert(front =~= v@.subrange(i as int, v@.len() as int));
    let r = slice_of(v, i, j);
    assert(trim_end(r@) == r@);
    r
}

/// `s.trim().is_empty()`.
pub fn blank(v: &[char]) -> (r: bool)
    ensures
        r == is_blank(v@),
{
    trimmed(v).len() == 0
}

// ---------------------------------------------------------------------------
// Case, search and rewriting
// ---------------------------------------------------------------------------

/// `str::to_ascii_lowercase`.
pub fn lowercase(v: &[char]) -> (r: Vec<char>)
    ensures
        r@ == lower(v@),
{
    let mut r: Vec<char> = Vec::new();
    let mut k: usize = 0;
    while k < v.len()
        invariant
            k <= v@.len(),
            r@ == lower(v@.take(k as int)),
        decreases v.len() - k,
    {
        let c = v[k];
        let l = if 'A' <= c && c <= 'Z' {
            ((c as u8) + 32) as char
        } else {
            c
        };
        r.push(l);
        assert(lower(v@.take(k as int)).push(l) =~= lower(v@.take(k + 1)));
        k = k + 1;
    }
    assert(v@.take(v@.len() as int) =~= v@);
    r
}

/// `needle` occurs in `hay` at index `i`.
pub fn occurs(hay: &[char], needle: &[char], i: usize) -> (r: bool)
    ensures
        r == occurs_at(hay@, needle@, i as int),
{
    if i > hay.len() || needle.len() > hay.len() - i {
        return false;
    }
    let mut k: usize = 0;
    while k < needle.len()
        invariant
            i + needle@.len() <= hay@.len(),
            k <= needle@.len(),
            forall|m: int| 0 <= m < k ==> hay@[i + m] == needle@[m],
        decreases needle.len() - k,
    {
        assert(i + k < hay.len());
        if hay[i + k] != needle[k] {
            assert(hay@.subrange(i as int, i + needle@.len())[k as int] != needle@[k as int]);
            return false;
        }
        k = k + 1;
    }
    assert(hay@.subrange(i as int, i + needle@.len()) =~= needle@);
    true
}

/// `str::contains` with a string pattern.
pub fn has(hay: &[char], needle: &[char]) -> (r: bool)
    ensures
        r == contains(hay@, needle@),
{
    let mut i: usize = 0;
    while i < hay.len()
        invariant
            i <= hay@.len(),
            forall|m: int| 0 <= m < i ==> !occurs_at(hay@, needle@, m),
        decreases hay.len() - i,
    {
        if occurs(hay, needle, i) {
            return true;
        }
        i = i + 1;
    }
    if occurs(hay, needle, i) {
        return true;
    }
    assert forall|m: int| !occurs_at(hay@, needle@, m) by {
        if 0 <= m <= i {
        }
    }
    false
}

/// `str::starts_with` with a string pattern.
pub fn begins(s: &[char], p: &[char]) -> (r: bool)
    ensures
        r == starts_with(s@, p@),
{
    let r = occurs(s, p, 0);
    assert(s@.take(p@.len() as int) =~= s@.subrange(0, p@.len() as int));
    r
}

/// `str::trim_start_matches` with a non-empty string pattern.
pub fn strip_all_prefixes(s: &[char], pat: &[char]) -> (r: Vec<char>)
    requires
        pat@.len() > 0,
    ensures
        r@ == trim_start_matches(s@, pat@),
{
    let mut i: usize = 0;
    assert(s@.skip(0) =~= s@);
    while begins_at(s, pat, i)
        invariant
            i <= s@.len(),
            pat@.len() > 0,
            trim_start_matches(s@, pat@) == trim_start_matches(s@.skip(i as int), pat@),
        decreases s.len() - i,
    {
        assert(s@.skip(i as int).skip(pat@.len() as int) =~= s@.skip(i + pat@.len()));
        i = i + pat.len();
    }
    slice_of(s, i, s.len())
}

/// `s[i..]` starts with `p`.
fn begins_at(s: &[char], p: &[char], i: usize) -> (r: bool)
    requires
        i <= s@.len(),
    ensures
        r == starts_with(s@.skip(i as int), p@),
        r ==> i + p@.len() <= s@.len(),
{
    let r = occurs(s, p, i);
    assert(s@.skip(i as int).take(p@.len() as int) =~= s@.subrange(i as int, i + p@.len()) || !r);
    if !r && p.len() <= s.len() - i {
        assert(s@.skip(i as int).take(p@.len() as int) =~= s@.subrange(i as int, i + p@.len()));
    }
    r
}

/// `[String]::join`.
pub fn join_all(list: &Vec<String>, sep: &[char]) -> (r: Vec<char>)
    ensures
        r@ == join(list@.map_values(|s: String| s@), sep@),
{
    let ghost views = list@.map_values(|s: String| s@);
    let mut r: Vec<char> = Vec::new();
    let mut k: usize = 0;
    while k < list.len()
        invariant
            k <= list@.len(),
            views == list@.map_values(|s: String| s@),
            r@ == join(views.take(k as int), sep@),
        decreases list.len() - k,
    {
        let piece = chars_of(list[k].as_str());
        if k == 0 {
            r = piece;
            assert(views.take(1) =~= seq![views[0]]);
        } else {
            let with_sep = concat(r.as_slice(), sep);
            r = concat(with_sep.as_slice(), piece.as_slice());
            assert(views.take(k + 1).drop_last() =~= views.take(k as int));
        }
        k = k + 1;
    }
    assert(views.take(list@.len() as int) =~= views);
    r
}

/// `str::replace` with a non-empty pattern.
pub fn replace_all(s: &[char], from: &[char], to: &[char]) -> (r: Vec<char>)
    requires
        from@.len() > 0,
    ensures
        r@ == replace(s@, from@, to@),
{
    let mut r: Vec<char> = Vec::new();
    let mut i: usize = 0;
    assert(s@.skip(0) =~= s@);
    assert(r@ + replace(s@, from@, to@) =~= replace(s@, from@, to@));
    while i < s.len()
        invariant
            i <= s@.len(),
            from@.len() > 0,
            r@ + replace(s@.skip(i as int), from@, to@) == replace(s@, from@, to@),
        decreases s.len() - i,
    {
        let ghost rest = s@.skip(i as int);
        if begins_at(s, from, i) {
            assert(rest.skip(from@.len() as int) =~= s@.skip(i + from@.len()));
            assert(replace(rest, from@, to@) == to@ + replace(
                rest.skip(from@.len() as int),
                from@,
                to@,
            ));
            let ghost prev = r@;
            r = concat(r.as_slice(), to);
            assert(r@ + replace(s@.skip(i + from@.len()), from@, to@) =~= prev + (to@ + replace(
                s@.skip(i + from@.len()),
                from@,
                to@,
            )));
            i = i + from.len();
        } else {
            assert(rest.drop_first() =~= s@.skip(i + 1));
            let c = s[i];
            let ghost prev = r@;
            r.push(c);
            assert(seq![c] + replace(rest.drop_first(), from@, to@) == replace(rest, from@, to@));
            assert(r@ + replace(s@.skip(i + 1), from@, to@) =~= prev + (seq![c] + replace(
                rest.drop_first(),
                from@,
                to@,
            )));
            i = i + 1;
        }
    }
    assert(s@.skip(i as int) =~= Seq::<char>::empty());
    assert(r@ + Seq::<char>::empty() =~= r@);
    r
}

/// Decimal notation of an `i64` (`i64::to_string`).
pub fn decimal_of(n: i64) -> (r: Vec<char>)
    ensures
        r@ == decimal(n as int),
{
    let negative = n < 0;
    let mut rest: u64 = if negative {
        (0i128 - (n as i128)) as u64
    } else {
        n as u64
    };
    let ghost whole: nat = rest as nat;
    let mut acc: Vec<char> = Vec::new();
    while rest >= 10
        invariant
            decimal_nat(whole) == decimal_nat(rest as nat) + acc@,
        decreases rest,
    {
        let d = (rest % 10) as u8;
        let ghost prev = acc@;
        acc.insert(0, (d + 48) as char);
        assert(decimal_nat(rest as nat) == decimal_nat((rest / 10) as nat).push(
            digit((rest % 10) as nat),
        ));
        assert(decimal_nat((rest / 10) as nat).push(digit((rest % 10) as nat)) + prev
            =~= decimal_nat((rest / 10) as nat) + acc@);
        rest = rest / 10;
    }
    let ghost prev = acc@;
    acc.insert(0, ((rest as u8) + 48) as char);
    assert(decimal_nat(rest as nat) == seq![digit(rest as nat)]);
    assert(acc@ =~= seq![digit(rest as nat)] + prev);
    if negative {
        let ghost unsigned = acc@;
        acc.insert(0, '-');
        assert(acc@ =~= seq!['-'] + unsigned);
    }
    acc
}

} // verus!
