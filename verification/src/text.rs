//! Text the HUD draws: decimal and thousands-grouped numbers, the
//! printf-dialect template filler the string table uses, and the few
//! ASCII-path helpers the art lookups need. Everything works on `Vec<char>`
//! internally, so each contract reads as a statement about `Seq<char>`.
use vstd::prelude::*;

verus! {

// --- numbers ------------------------------------------------------------------

/// The ASCII digit for `d` (`0..=9`).
pub open spec fn digit_char(d: nat) -> char {
    if d == 0 {
        '0'
    } else if d == 1 {
        '1'
    } else if d == 2 {
        '2'
    } else if d == 3 {
        '3'
    } else if d == 4 {
        '4'
    } else if d == 5 {
        '5'
    } else if d == 6 {
        '6'
    } else if d == 7 {
        '7'
    } else if d == 8 {
        '8'
    } else {
        '9'
    }
}

/// The decimal spelling of `n`, most significant digit first, no leading zeros.
pub open spec fn decimal(n: nat) -> Seq<char>
    decreases n,
{
    if n < 10 {
        seq![digit_char(n)]
    } else {
        decimal(n / 10).push(digit_char(n % 10))
    }
}

/// `n` with a leading `-` when negative.
pub open spec fn signed_decimal(n: int) -> Seq<char> {
    if n < 0 {
        seq!['-'] + decimal((-n) as nat)
    } else {
        decimal(n as nat)
    }
}

/// Exactly three digits, zero padded (`n < 1000`).
pub open spec fn three_digits(n: nat) -> Seq<char> {
    seq![digit_char(n / 100), digit_char((n / 10) % 10), digit_char(n % 10)]
}

/// `n` in decimal with a `,` between every group of three digits.
pub open spec fn thousands(n: nat) -> Seq<char>
    decreases n,
{
    if n < 1000 {
        decimal(n)
    } else {
        thousands(n / 1000) + seq![','] + three_digits(n % 1000)
    }
}

fn digit_of(d: u64) -> (c: char)
    requires
        d < 10,
    ensures
        c == digit_char(d as nat),
{
    if d == 0 {
        '0'
    } else if d == 1 {
        '1'
    } else if d == 2 {
        '2'
    } else if d == 3 {
        '3'
    } else if d == 4 {
        '4'
    } else if d == 5 {
        '5'
    } else if d == 6 {
        '6'
    } else if d == 7 {
        '7'
    } else if d == 8 {
        '8'
    } else {
        '9'
    }
}

/// Append the decimal spelling of `n` to `out`.
pub fn push_decimal(out: &mut Vec<char>, n: u64)
    ensures
        final(out)@ == old(out)@ + decimal(n as nat),
    decreases n,
{
    if n < 10 {
        out.push(digit_of(n));
    } else {
        push_decimal(out, n / 10);
        out.push(digit_of(n % 10));
        proof {
            assert(old(out)@ + decimal(n as nat) =~= old(out)@ + decimal((n / 10) as nat) + seq![
                digit_char((n % 10) as nat),
            ]);
        }
    }
}

/// Append `n`, signed, to `out`.
pub fn push_signed_decimal(out: &mut Vec<char>, n: i64)
    ensures
        final(out)@ == old(out)@ + signed_decimal(n as int),
{
    if n < 0 {
        out.push('-');
        let magnitude: u64 = if n == i64::MIN {
            9_223_372_036_854_775_808u64
        } else {
            (-n) as u64
        };
        push_decimal(out, magnitude);
        proof {
            assert(old(out)@ + signed_decimal(n as int) =~= old(out)@ + seq!['-'] + decimal(
                magnitude as nat,
            ));
        }
    } else {
        push_decimal(out, n as u64);
    }
}

/// Append `n` with thousands separators to `out`.
pub fn push_thousands(out: &mut Vec<char>, n: u64)
    ensures
        final(out)@ == old(out)@ + thousands(n as nat),
    decreases n,
{
    if n < 1000 {
        push_decimal(out, n);
    } else {
        push_thousands(out, n / 1000);
        let low = n % 1000;
        out.push(',');
        out.push(digit_of(low / 100));
        out.push(digit_of((low / 10) % 10));
        out.push(digit_of(low % 10));
        proof {
            assert(old(out)@ + thousands(n as nat) =~= old(out)@ + thousands((n / 1000) as nat)
                + seq![','] + three_digits(low as nat));
        }
    }
}

/// `n` as text, e.g. `1234` -> `"1234"`.
pub fn decimal_string(n: u64) -> (s: String)
    ensures
        s@ == decimal(n as nat),
{
    let mut out: Vec<char> = Vec::new();
    push_decimal(&mut out, n);
    proof {
        assert(out@ =~= decimal(n as nat));
    }
    string_of(&out)
}

/// `n` with thousands separators, e.g. `12345` -> `"12,345"` — the grouping
/// every gold and GP readout uses.
pub fn format_thousands(n: u64) -> (s: String)
    ensures
        s@ == thousands(n as nat),
{
    let mut out: Vec<char> = Vec::new();
    push_thousands(&mut out, n);
    proof {
        assert(out@ =~= thousands(n as nat));
    }
    string_of(&out)
}

// --- conversions between `str` and `Vec<char>` ----------------------------------

/// The characters of `s`.
pub fn chars_of(s: &str) -> (v: Vec<char>)
    ensures
        v@ == s@,
{
    let n = s.unicode_len();
    let mut v: Vec<char> = Vec::new();
    let mut i: usize = 0;
    while i < n
        invariant
            n == s@.len(),
            i <= n,
            v@ == s@.subrange(0, i as int),
        decreases n - i,
    {
        let c = s.get_char(i);
        v.push(c);
        i = i + 1;
        proof {
            assert(v@ =~= s@.subrange(0, i as int));
        }
    }
    proof {
        assert(v@ =~= s@);
    }
    v
}

/// `std`'s `FromIterator<&char> for String`: the string made of `chars`.
#[verifier::external_body]
pub fn string_of(chars: &Vec<char>) -> (s: String)
    ensures
        s@ == chars@,
{
    chars.iter().collect()
}

// --- the printf-dialect template ----------------------------------------------

/// Whether `t` starts with one of the two placeholders the string table uses,
/// `%s` or `%d`.
pub open spec fn starts_with_placeholder(t: Seq<char>) -> bool {
    t.len() >= 2 && t[0] == '%' && (t[1] == 's' || t[1] == 'd')
}

/// `template` with its placeholders filled positionally from `args`. A
/// placeholder with no argument left stays as written.
pub open spec fn fill_template(template: Seq<char>, args: Seq<Seq<char>>) -> Seq<char>
    decreases template.len(),
{
    if template.len() == 0 {
        Seq::empty()
    } else if starts_with_placeholder(template) && args.len() > 0 {
        args[0] + fill_template(template.skip(2), args.drop_first())
    } else {
        seq![template[0]] + fill_template(template.skip(1), args)
    }
}

/// The views of a list of string slices.
pub open spec fn views_of(args: Seq<&str>) -> Seq<Seq<char>> {
    args.map_values(|a: &str| a@)
}

/// Fill `template`'s `%s` / `%d` placeholders from `args`, in order — how
/// every `UIIT_*` string with a runtime part is rendered.
pub fn format_template(template: &str, args: &[&str]) -> (s: String)
    ensures
        s@ == fill_template(template@, views_of(args@)),
{
    let t = chars_of(template);
    let ghost all_args = views_of(args@);
    let mut out: Vec<char> = Vec::new();
    let mut i: usize = 0;
    let mut k: usize = 0;
    proof {
        assert(t@.skip(0) =~= t@);
        assert(all_args.skip(0) =~= all_args);
        assert(out@ + fill_template(t@, all_args) =~= fill_template(t@, all_args));
    }
    while i < t.len()
        invariant
            t@ == template@,
            all_args == views_of(args@),
            i <= t.len(),
            k <= args@.len(),
            out@ + fill_template(t@.skip(i as int), all_args.skip(k as int)) == fill_template(
                t@,
                all_args,
            ),
        decreases t.len() - i,
    {
        let ghost rest = t@.skip(i as int);
        let ghost rest_args = all_args.skip(k as int);
        if i + 1 < t.len() && t[i] == '%' && (t[i + 1] == 's' || t[i + 1] == 'd') && k
            < args.len() {
            let arg = chars_of(args[k]);
            proof {
                assert(starts_with_placeholder(rest));
                assert(rest_args.len() > 0);
                assert(rest_args[0] == arg@);
                assert(rest.skip(2) =~= t@.skip(i + 2));
                assert(rest_args.drop_first() =~= all_args.skip(k + 1));
            }
            let mut j: usize = 0;
            let ghost before = out@;
            while j < arg.len()
                invariant
                    j <= arg.len(),
                    out@ == before + arg@.subrange(0, j as int),
                decreases arg.len() - j,
            {
                out.push(arg[j]);
                j = j + 1;
                proof {
                    assert(out@ =~= before + arg@.subrange(0, j as int));
                }
            }
            proof {
                assert(arg@.subrange(0, arg@.len() as int) =~= arg@);
                assert(out@ + fill_template(t@.skip(i + 2), all_args.skip(k + 1)) =~= before
                    + fill_template(rest, rest_args));
            }
            i = i + 2;
            k = k + 1;
        } else {
            proof {
                assert(!(starts_with_placeholder(rest) && rest_args.len() > 0));
                assert(rest.skip(1) =~= t@.skip(i + 1));
                assert(rest[0] == t@[i as int]);
            }
            let ghost before = out@;
            out.push(t[i]);
            proof {
                assert(out@ + fill_template(t@.skip(i + 1), rest_args) =~= before + fill_template(
                    rest,
                    rest_args,
                ));
            }
            i = i + 1;
        }
    }
    proof {
        assert(t@.skip(i as int) =~= Seq::<char>::empty());
        assert(out@ =~= fill_template(template@, views_of(args@)));
    }
    string_of(&out)
}

// --- ASCII path helpers ------------------------------------------------------

/// `c` with `A..=Z` mapped to `a..=z`, every other char unchanged.
pub open spec fn ascii_lower(c: char) -> char {
    if 'A' <= c && c <= 'Z' {
        ((c as u32) + 32) as char
    } else {
        c
    }
}

/// `c` lowercased (ASCII) and with `\` turned into `/` — how a descriptor's
/// Windows-style art path becomes an asset path.
pub open spec fn normalize_path_char(c: char) -> char {
    if c == '\\' {
        '/'
    } else {
        ascii_lower(c)
    }
}

/// A path, ASCII-lowercased and forward-slashed.
pub open spec fn normalize_path(s: Seq<char>) -> Seq<char> {
    s.map_values(|c: char| normalize_path_char(c))
}

pub fn ascii_lower_char(c: char) -> (r: char)
    ensures
        r == ascii_lower(c),
{
    if 'A' <= c && c <= 'Z' {
        let code: u32 = c as u32 + 32;
        proof {
            assert(0x61 <= code <= 0x7a);
        }
        let r = char_from_ascii_code(code);
        r
    } else {
        c
    }
}

/// The char with code point `code`, for a code in `a..=z`.
fn char_from_ascii_code(code: u32) -> (c: char)
    requires
        0x61 <= code <= 0x7a,
    ensures
        c == code as char,
{
    let b: u8 = code as u8;
    b as char
}

/// `s` ASCII-lowercased and forward-slashed.
pub fn normalize_path_chars(s: &Vec<char>) -> (r: Vec<char>)
    ensures
        r@ == normalize_path(s@),
{
    let mut r: Vec<char> = Vec::new();
    let mut i: usize = 0;
    while i < s.len()
        invariant
            i <= s.len(),
            r@ == normalize_path(s@.subrange(0, i as int)),
        decreases s.len() - i,
    {
        let c = s[i];
        let n = if c == '\\' {
            '/'
        } else {
            ascii_lower_char(c)
        };
        r.push(n);
        i = i + 1;
        proof {
            assert(normalize_path(s@.subrange(0, i as int)) =~= normalize_path(
                s@.subrange(0, i - 1),
            ).push(normalize_path_char(c)));
            assert(r@ =~= normalize_path(s@.subrange(0, i as int)));
        }
    }
    proof {
        assert(s@.subrange(0, s@.len() as int) =~= s@);
    }
    r
}

/// Whether two char sequences are equal.
pub fn chars_eq(a: &Vec<char>, b: &Vec<char>) -> (r: bool)
    ensures
        r == (a@ == b@),
{
    if a.len() != b.len() {
        return false;
    }
    let mut i: usize = 0;
    while i < a.len()
        invariant
            a.len() == b.len(),
            i <= a.len(),
            forall|j: int| 0 <= j < i ==> a@[j] == b@[j],
        decreases a.len() - i,
    {
        if a[i] != b[i] {
            return false;
        }
        i = i + 1;
    }
    proof {
        assert(a@ =~= b@);
    }
    true
}

/// Append all of `s` to `out`.
pub fn push_str(out: &mut Vec<char>, s: &str)
    ensures
        final(out)@ == old(out)@ + s@,
{
    let cs = chars_of(s);
    push_all(out, &cs);
}

/// Append all of `cs` to `out`.
pub fn push_all(out: &mut Vec<char>, cs: &Vec<char>)
    ensures
        final(out)@ == old(out)@ + cs@,
{
    let ghost before = out@;
    let mut j: usize = 0;
    while j < cs.len()
        invariant
            j <= cs.len(),
            out@ == before + cs@.subrange(0, j as int),
        decreases cs.len() - j,
    {
        out.push(cs[j]);
        j = j + 1;
        proof {
            assert(out@ =~= before + cs@.subrange(0, j as int));
        }
    }
    proof {
        assert(cs@.subrange(0, cs@.len() as int) =~= cs@);
    }
}

// --- searching -----------------------------------------------------------------

/// The index of the first `c` in `s`, if any.
pub fn find_first(s: &Vec<char>, c: char) -> (r: Option<usize>)
    ensures
        r matches Some(i) ==> s@.index_of_first(c) == Some(i as int),
        r is None ==> s@.index_of_first(c) is None,
{
    let mut i: usize = 0;
    while i < s.len()
        invariant
            i <= s.len(),
            forall|j: int| 0 <= j < i ==> s@[j] != c,
        decreases s.len() - i,
    {
        if s[i] == c {
            proof {
                s@.index_of_first_ensures(c);
                assert(s@.contains(c));
            }
            return Some(i);
        }
        i = i + 1;
    }
    proof {
        s@.index_of_first_ensures(c);
        if s@.contains(c) {
            let k = choose|k: int| 0 <= k < s@.len() && s@[k] == c;
            assert(s@[k] != c);
        }
    }
    None
}

/// The index of the last `c` in `s`, if any.
pub fn find_last(s: &Vec<char>, c: char) -> (r: Option<usize>)
    ensures
        r matches Some(i) ==> s@.index_of_last(c) == Some(i as int),
        r is None ==> s@.index_of_last(c) is None,
{
    let mut i: usize = s.len();
    while i > 0
        invariant
            i <= s.len(),
            forall|j: int| i <= j < s@.len() ==> s@[j] != c,
        decreases i,
    {
        if s[i - 1] == c {
            proof {
                s@.index_of_last_ensures(c);
                assert(s@.contains(c));
            }
            return Some(i - 1);
        }
        i = i - 1;
    }
    proof {
        s@.index_of_last_ensures(c);
        if s@.contains(c) {
            let k = choose|k: int| 0 <= k < s@.len() && s@[k] == c;
            assert(s@[k] != c);
        }
    }
    None
}

/// The characters `s[start..end]`.
pub fn slice_chars(s: &Vec<char>, start: usize, end: usize) -> (r: Vec<char>)
    requires
        start <= end <= s.len(),
    ensures
        r@ == s@.subrange(start as int, end as int),
{
    let mut r: Vec<char> = Vec::new();
    let mut i: usize = start;
    while i < end
        invariant
            start <= i <= end <= s.len(),
            r@ == s@.subrange(start as int, i as int),
        decreases end - i,
    {
        r.push(s[i]);
        i = i + 1;
        proof {
            assert(r@ =~= s@.subrange(start as int, i as int));
        }
    }
    r
}

/// Whether `s` starts with `prefix`.
pub open spec fn has_prefix(s: Seq<char>, prefix: Seq<char>) -> bool {
    prefix.len() <= s.len() && s.subrange(0, prefix.len() as int) == prefix
}

/// Whether `s` ends with `suffix`.
pub open spec fn has_suffix(s: Seq<char>, suffix: Seq<char>) -> bool {
    suffix.len() <= s.len() && s.subrange(s.len() - suffix.len(), s.len() as int) == suffix
}

/// Whether `s` starts with `prefix`.
pub fn starts_with_chars(s: &Vec<char>, prefix: &Vec<char>) -> (r: bool)
    ensures
        r == has_prefix(s@, prefix@),
{
    if prefix.len() > s.len() {
        return false;
    }
    let mut i: usize = 0;
    while i < prefix.len()
        invariant
            prefix.len() <= s.len(),
            i <= prefix.len(),
            forall|j: int| 0 <= j < i ==> s@[j] == prefix@[j],
        decreases prefix.len() - i,
    {
        if s[i] != prefix[i] {
            proof {
                assert(s@.subrange(0, prefix@.len() as int)[i as int] != prefix@[i as int]);
            }
            return false;
        }
        i = i + 1;
    }
    proof {
        assert(s@.subrange(0, prefix@.len() as int) =~= prefix@);
    }
    true
}

/// Whether `s` ends with `suffix`.
pub fn ends_with_chars(s: &Vec<char>, suffix: &Vec<char>) -> (r: bool)
    ensures
        r == has_suffix(s@, suffix@),
{
    if suffix.len() > s.len() {
        return false;
    }
    let off: usize = s.len() - suffix.len();
    let mut i: usize = 0;
    while i < suffix.len()
        invariant
            suffix.len() <= s.len(),
            off == s.len() - suffix.len(),
            i <= suffix.len(),
            forall|j: int| 0 <= j < i ==> s@[off + j] == suffix@[j],
        decreases suffix.len() - i,
    {
        if s[off + i] != suffix[i] {
            proof {
                assert(s@.subrange(off as int, s@.len() as int)[i as int] != suffix@[i as int]);
            }
            return false;
        }
        i = i + 1;
    }
    proof {
        assert(s@.subrange(off as int, s@.len() as int) =~= suffix@);
    }
    true
}

/// `s` with every `\` turned into `/`.
pub open spec fn forward_slashed(s: Seq<char>) -> Seq<char> {
    s.map_values(|c: char| if c == '\\' { '/' } else { c })
}

/// `s` with every `\` turned into `/`.
pub fn forward_slash_chars(s: &Vec<char>) -> (r: Vec<char>)
    ensures
        r@ == forward_slashed(s@),
{
    let mut r: Vec<char> = Vec::new();
    let mut i: usize = 0;
    while i < s.len()
        invariant
            i <= s.len(),
            r@ == forward_slashed(s@.subrange(0, i as int)),
        decreases s.len() - i,
    {
        let c = s[i];
        r.push(if c == '\\' { '/' } else { c });
        i = i + 1;
        proof {
            assert(forward_slashed(s@.subrange(0, i as int)) =~= forward_slashed(
                s@.subrange(0, i - 1),
            ).push(if c == '\\' { '/' } else { c }));
        }
    }
    proof {
        assert(s@.subrange(0, s@.len() as int) =~= s@);
    }
    r
}

// --- Unicode lowercasing -----------------------------------------------------------

/// What `str::to_lowercase` makes of a string: its Unicode lowercase
/// mapping, where some chars map to more than one and a capital sigma's
/// mapping depends on whether it ends a word.
pub uninterp spec fn lowercase_of(s: Seq<char>) -> Seq<char>;

/// `str::to_lowercase`. Its result is a function of `s` alone, named
/// `lowercase_of`; nothing more is claimed of the Unicode tables behind it.
#[verifier::external_body]
pub(crate) fn to_lowercase(s: &str) -> (r: String)
    ensures
        r@ == lowercase_of(s@),
{
    s.to_lowercase()
}

} // verus!
