//! String primitives shared by the rest of the library.
use vstd::prelude::*;

verus! {

/// The texts held by a list of strings, in order.
pub open spec fn texts(v: Vec<String>) -> Seq<Seq<char>> {
    Seq::new(v@.len(), |i: int| v@[i]@)
}

/// The text of an optional string.
pub open spec fn opt_text(o: Option<String>) -> Option<Seq<char>> {
    match o {
        Some(s) => Some(s@),
        None => None,
    }
}

/// The texts of an optional list of strings.
pub open spec fn opt_texts(o: Option<Vec<String>>) -> Option<Seq<Seq<char>>> {
    match o {
        Some(v) => Some(texts(v)),
        None => None,
    }
}

/// Whether both slices hold the same text.
pub fn same_text(a: &str, b: &str) -> (r: bool)
    ensures
        r == (a@ == b@),
{
    let left = a.to_owned();
    let right = b.to_owned();
    left == right
}

/// Calls `str::strip_prefix` of the standard library with a string pattern,
/// which gives the rest of the slice behind the prefix, or nothing where the
/// slice does not start with it.
#[verifier::external_body]
pub(crate) fn rest_after<'a>(s: &'a str, prefix: &str) -> (r: Option<&'a str>)
    ensures
        r is Some <==> prefix@.is_prefix_of(s@),
        r matches Some(rest) ==> rest@ == s@.skip(prefix@.len() as int),
{
    s.strip_prefix(prefix)
}

/// Whether `c` is white space: one of the characters that Unicode gives the
/// property `White_Space`, line ends among them.
pub open spec fn is_space(c: char) -> bool {
    let n = c as u32;
    ||| 0x09 <= n <= 0x0d
    ||| n == 0x20
    ||| n == 0x85
    ||| n == 0xa0
    ||| n == 0x1680
    ||| 0x2000 <= n <= 0x200a
    ||| n == 0x2028
    ||| n == 0x2029
    ||| n == 0x202f
    ||| n == 0x205f
    ||| n == 0x3000
}

/// The text without the white space at its end: the longest part from the
/// start of `s` whose last character is no white space.
pub open spec fn without_trailing_space(s: Seq<char>) -> Seq<char>
    decreases s.len(),
{
    if s.len() > 0 && is_space(s.last()) {
        without_trailing_space(s.drop_last())
    } else {
        s
    }
}

/// Calls `str::trim_end` of the standard library, which gives the slice
/// without the white space at its end, white space being what Unicode gives
/// the property `White_Space`.
#[verifier::external_body]
pub(crate) fn trim_end(s: &str) -> (r: &str)
    ensures
        r@ == without_trailing_space(s@),
{
    s.trim_end()
}

/// What is left of a text without the white space at its end is a part from
/// its start, ends in no white space, and is followed by white space only.
pub proof fn lemma_trimmed(s: Seq<char>)
    ensures
        without_trailing_space(s).is_prefix_of(s),
        without_trailing_space(s).len() > 0 ==> !is_space(without_trailing_space(s).last()),
        forall|i: int| without_trailing_space(s).len() <= i < s.len() ==> is_space(#[trigger] s[i]),
        without_trailing_space(without_trailing_space(s)) == without_trailing_space(s),
    decreases s.len(),
{
    if s.len() > 0 && is_space(s.last()) {
        lemma_trimmed(s.drop_last());
        let t = without_trailing_space(s.drop_last());
        assert(t.is_prefix_of(s)) by {
            assert(t =~= s.drop_last().subrange(0, t.len() as int));
            assert(t =~= s.subrange(0, t.len() as int));
        }
        assert forall|i: int| t.len() <= i < s.len() implies is_space(#[trigger] s[i]) by {
            if i < s.len() - 1 {
                assert(s[i] == s.drop_last()[i]);
            }
        }
    } else {
        assert(s =~= s.subrange(0, s.len() as int));
    }
}

/// Whether `s` starts with `prefix`.
pub fn has_prefix(s: &str, prefix: &str) -> (r: bool)
    ensures
        r == prefix@.is_prefix_of(s@),
{
    rest_after(s, prefix).is_some()
}

/// The texts among `names` that start with `prefix`, in their order.
pub open spec fn with_prefix(names: Seq<Seq<char>>, prefix: Seq<char>) -> Seq<Seq<char>>
    decreases names.len(),
{
    if names.len() == 0 {
        Seq::empty()
    } else if prefix.is_prefix_of(names.last()) {
        with_prefix(names.drop_last(), prefix).push(names.last())
    } else {
        with_prefix(names.drop_last(), prefix)
    }
}

/// The strings among `names` that start with `prefix`, in their order.
pub fn keep_with_prefix(names: &Vec<String>, prefix: &str) -> (r: Vec<String>)
    ensures
        texts(r) == with_prefix(texts(*names), prefix@),
{
    let mut out: Vec<String> = Vec::new();
    let mut i: usize = 0;
    assert(texts(*names).take(0) =~= Seq::<Seq<char>>::empty());
    assert(texts(out) =~= Seq::<Seq<char>>::empty());
    while i < names.len()
        invariant
            i <= names@.len(),
            texts(out) == with_prefix(texts(*names).take(i as int), prefix@),
        decreases names@.len() - i,
    {
        let ghost before = texts(out);
        let ghost upto = texts(*names).take(i + 1);
        assert(upto.drop_last() =~= texts(*names).take(i as int));
        assert(upto.last() == names@[i as int]@);
        if has_prefix(names[i].as_str(), prefix) {
            out.push(copy_text(names[i].as_str()));
            assert(texts(out) =~= before.push(names@[i as int]@));
        }
        i += 1;
    }
    assert(texts(*names).take(names@.len() as int) =~= texts(*names));
    out
}

/// Whether `c` is a decimal digit.
pub open spec fn is_digit(c: char) -> bool {
    '0' <= c && c <= '9'
}

/// Whether `s` is one decimal digit or more, and nothing else.
pub open spec fn all_digits(s: Seq<char>) -> bool {
    s.len() > 0 && forall|i: int| 0 <= i < s.len() ==> is_digit(#[trigger] s[i])
}

/// The number that a sequence of decimal digits spells.
pub open spec fn number_of(s: Seq<char>) -> nat
    decreases s.len(),
{
    if s.len() == 0 {
        0
    } else {
        number_of(s.drop_last()) * 10 + ((s.last() as int) - ('0' as int)) as nat
    }
}

/// The integer that a text spells: decimal digits, with a plus or minus sign
/// in front of them or none.
pub open spec fn signed_named(s: Seq<char>) -> Option<int> {
    if s.len() > 0 && s[0] == '-' {
        if all_digits(s.skip(1)) {
            Some(-(number_of(s.skip(1)) as int))
        } else {
            None
        }
    } else {
        match unsigned_named(s) {
            Some(n) => Some(n as int),
            None => None,
        }
    }
}

/// The natural number that a text spells: decimal digits, with a plus sign
/// in front of them or none.
pub open spec fn unsigned_named(s: Seq<char>) -> Option<nat> {
    if s.len() > 0 && s[0] == '+' {
        if all_digits(s.skip(1)) {
            Some(number_of(s.skip(1)))
        } else {
            None
        }
    } else if all_digits(s) {
        Some(number_of(s))
    } else {
        None
    }
}

/// The signed 32-bit integer that a text spells, if it spells one that fits.
pub open spec fn i32_named(s: Seq<char>) -> Option<i32> {
    match signed_named(s) {
        Some(n) => if i32::MIN <= n <= i32::MAX {
            Some(n as i32)
        } else {
            None
        },
        None => None,
    }
}

/// The unsigned 8-bit integer that a text spells, if it spells one that fits.
pub open spec fn u8_named(s: Seq<char>) -> Option<u8> {
    match unsigned_named(s) {
        Some(n) => if n <= u8::MAX {
            Some(n as u8)
        } else {
            None
        },
        None => None,
    }
}

/// Calls `str::parse` of the standard library for `i32`, which reads an
/// optional sign and decimal digits and fails on anything else and on a
/// number that does not fit.
#[verifier::external_body]
pub(crate) fn parse_i32(s: &str) -> (r: Option<i32>)
    ensures
        r == i32_named(s@),
{
    s.parse::<i32>().ok()
}

/// Calls `str::parse` of the standard library for `u8`, which reads an
/// optional plus sign and decimal digits and fails on anything else and on a
/// number that does not fit.
#[verifier::external_body]
pub(crate) fn parse_u8(s: &str) -> (r: Option<u8>)
    ensures
        r == u8_named(s@),
{
    s.parse::<u8>().ok()
}

/// A fresh string with the same text.
pub fn copy_text(s: &str) -> (r: String)
    ensures
        r@ == s@,
{
    s.to_owned()
}

/// A fresh list holding the same texts in the same order.
pub fn copy_texts(v: &Vec<String>) -> (r: Vec<String>)
    ensures
        texts(r) == texts(*v),
{
    let mut out: Vec<String> = Vec::new();
    let mut i: usize = 0;
    while i < v.len()
        invariant
            i <= v@.len(),
            out@.len() == i,
            forall|j: int| 0 <= j < i ==> out@[j]@ == v@[j]@,
        decreases v@.len() - i,
    {
        out.push(v[i].clone());
        i += 1;
    }
    assert(texts(out) =~= texts(*v));
    out
}

/// Whether `needle` is one of the texts of `list`.
pub fn contains_text(list: &Vec<String>, needle: &str) -> (r: bool)
    ensures
        r == texts(*list).contains(needle@),
{
    let mut i: usize = 0;
    while i < list.len()
        invariant
            i <= list@.len(),
            forall|j: int| 0 <= j < i ==> list@[j]@ != needle@,
        decreases list@.len() - i,
    {
        if same_text(list[i].as_str(), needle) {
            assert(texts(*list)[i as int] == needle@);
            return true;
        }
        i += 1;
    }
    assert(forall|j: int| 0 <= j < texts(*list).len() ==> texts(*list)[j] != needle@);
    false
}

} // verus!
