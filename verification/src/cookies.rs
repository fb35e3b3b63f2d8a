//! Parsing of the `Cookie` request header: `name=value;` pairs, each
//! optionally followed by a semicolon and by spaces or tabs.
use vstd::prelude::*;
use vstd::slice::slice_subrange;

verus! {

/// The byte `=`, which ends a cookie name.
pub const EQUALS: u8 = 61;

/// The byte `;`, which may end a cookie value.
pub const SEMICOLON: u8 = 59;

/// The three classes of bytes the grammar scans over.
#[derive(Clone, Copy, PartialEq, Eq, Debug)]
pub enum ByteClass {
    /// Any byte but `=`.
    Name,
    /// Any byte but space, `,` and `;`.
    Value,
    /// Space or horizontal tab.
    Space,
}

pub open spec fn spec_is_cookie_value_char(chr: u8) -> bool {
    chr != 32 && chr != 44 && chr != 59
}

pub open spec fn spec_is_space(chr: u8) -> bool {
    chr == 32 || chr == 9
}

pub open spec fn in_class(k: ByteClass, chr: u8) -> bool {
    match k {
        ByteClass::Name => chr != EQUALS,
        ByteClass::Value => spec_is_cookie_value_char(chr),
        ByteClass::Space => spec_is_space(chr),
    }
}

/// Length of the longest prefix of `s` made of bytes of class `k`.
pub open spec fn span(s: Seq<u8>, k: ByteClass) -> nat
    decreases s.len(),
{
    if s.len() == 0 || !in_class(k, s[0]) {
        0
    } else {
        1 + span(s.drop_first(), k)
    }
}

/// What a parsed cookie holds, as byte sequences.
pub struct CookieView {
    pub name: Seq<u8>,
    pub value: Seq<u8>,
    pub semicolon: Option<Seq<u8>>,
    pub spaces: Seq<u8>,
}

/// The bytes of the header that a cookie stands for.
pub open spec fn cookie_bytes(c: CookieView) -> Seq<u8> {
    c.name + seq![EQUALS] + c.value + match c.semicolon {
        Some(s) => s,
        None => Seq::<u8>::empty(),
    } + c.spaces
}

/// The bytes of the header that a list of cookies stands for, in order.
pub open spec fn cookies_bytes(cs: Seq<CookieView>) -> Seq<u8>
    decreases cs.len(),
{
    if cs.len() == 0 {
        Seq::<u8>::empty()
    } else {
        cookie_bytes(cs[0]) + cookies_bytes(cs.drop_first())
    }
}

/// The length that `get_full_length` reports: a present semicolon counts
/// as one byte, and one more byte stands for the `=`.
pub open spec fn full_length(c: CookieView) -> int {
    c.name.len() + c.value.len() + (if c.semicolon is Some { 1int } else { 0int })
        + c.spaces.len() + 1
}

/// The shape of every cookie the parser returns.
pub open spec fn cookie_well_formed(c: CookieView) -> bool {
    &&& c.name.len() > 0
    &&& forall|i: int| 0 <= i < c.name.len() ==> #[trigger] c.name[i] != EQUALS
    &&& forall|i: int| 0 <= i < c.value.len() ==> spec_is_cookie_value_char(#[trigger] c.value[i])
    &&& (c.semicolon matches Some(s) ==> s == seq![SEMICOLON])
    &&& forall|i: int| 0 <= i < c.spaces.len() ==> spec_is_space(#[trigger] c.spaces[i])
    &&& (c.semicolon is None && c.spaces.len() > 0 ==> c.spaces[0] == 32)
}

/// Where each part of the first cookie of `s` starts and ends:
/// `(name_end, value_end, spaces_start, end)`. The name is `s[0..name_end]`,
/// the `=` is at `name_end`, the value is `s[name_end + 1..value_end]`,
/// a semicolon is at `value_end` when `spaces_start > value_end`, and the
/// spaces are `s[spaces_start..end]`.
pub open spec fn cookie_bounds(s: Seq<u8>) -> (int, int, int, int) {
    let n = span(s, ByteClass::Name) as int;
    let value_end = n + 1 + span(s.skip(n + 1), ByteClass::Value);
    let spaces_start = if value_end < s.len() && s[value_end] == SEMICOLON {
        value_end + 1
    } else {
        value_end
    };
    let end = spaces_start + span(s.skip(spaces_start), ByteClass::Space);
    (n, value_end, spaces_start, end)
}

/// The first cookie of `s` and the number of bytes it takes, or `None`
/// where `s` does not start with a non-empty name followed by `=`.
pub open spec fn spec_single_cookie(s: Seq<u8>) -> Option<(CookieView, nat)> {
    let (n, value_end, spaces_start, end) = cookie_bounds(s);
    if n == 0 || n >= s.len() {
        None
    } else {
        Some(
            (
                CookieView {
                    name: s.subrange(0, n),
                    value: s.subrange(n + 1, value_end),
                    semicolon: if spaces_start > value_end {
                        Some(seq![SEMICOLON])
                    } else {
                        None
                    },
                    spaces: s.subrange(spaces_start, end),
                },
                end as nat,
            ),
        )
    }
}

/// Why the first cookie of `s` cannot be read.
#[derive(Clone, Copy, PartialEq, Eq, Debug)]
pub enum CookieError {
    /// The input is empty or starts with `=`.
    EmptyName,
    /// No `=` follows the name.
    MissingEquals,
}

pub open spec fn spec_single_cookie_error(s: Seq<u8>) -> CookieError {
    if span(s, ByteClass::Name) == 0 {
        CookieError::EmptyName
    } else {
        CookieError::MissingEquals
    }
}

/// Every cookie that can be read from the start of `s`, one after the
/// other, up to the first place where no cookie starts.
pub open spec fn spec_cookies(s: Seq<u8>) -> Seq<CookieView>
    decreases s.len(),
{
    match spec_single_cookie(s) {
        None => Seq::<CookieView>::empty(),
        Some((c, k)) => {
            proof {
                lemma_single_cookie_consumes(s);
            }
            seq![c] + spec_cookies(s.skip(k as int))
        },
    }
}

/// How many bytes `spec_cookies` reads from `s`.
pub open spec fn spec_cookies_consumed(s: Seq<u8>) -> nat
    decreases s.len(),
{
    match spec_single_cookie(s) {
        None => 0,
        Some((c, k)) => {
            proof {
                lemma_single_cookie_consumes(s);
            }
            k + spec_cookies_consumed(s.skip(k as int))
        },
    }
}

// ---------------------------------------------------------------------------
// Lemmas on `span`
// ---------------------------------------------------------------------------

/// `span` is bounded by the length, covers only bytes of the class, and
/// stops at the end or at a byte outside the class.
pub proof fn lemma_span(s: Seq<u8>, k: ByteClass)
    ensures
        span(s, k) <= s.len(),
        forall|j: int| 0 <= j < span(s, k) ==> in_class(k, #[trigger] s[j]),
        span(s, k) < s.len() ==> !in_class(k, s[span(s, k) as int]),
    decreases s.len(),
{
    if s.len() > 0 && in_class(k, s[0]) {
        lemma_span(s.drop_first(), k);
        assert forall|j: int| 0 <= j < span(s, k) implies in_class(k, #[trigger] s[j]) by {
            if j > 0 {
                assert(s[j] == s.drop_first()[j - 1]);
            }
        }
    }
}

/// The prefix described by `lemma_span` determines `span`.
pub proof fn lemma_span_unique(s: Seq<u8>, k: ByteClass, n: int)
    requires
        0 <= n <= s.len(),
        forall|j: int| 0 <= j < n ==> in_class(k, #[trigger] s[j]),
        n == s.len() || !in_class(k, s[n]),
    ensures
        span(s, k) == n,
    decreases n,
{
    if n > 0 {
        assert forall|j: int| 0 <= j < n - 1 implies in_class(k, #[trigger] s.drop_first()[j]) by {
            assert(s.drop_first()[j] == s[j + 1]);
        }
        if n - 1 < s.drop_first().len() {
            assert(s.drop_first()[n - 1] == s[n]);
        }
        lemma_span_unique(s.drop_first(), k, n - 1);
    } else {
        if s.len() > 0 {
            assert(!in_class(k, s[0]));
        }
    }
}

/// The first cookie takes at least two bytes and no more than the input.
pub proof fn lemma_single_cookie_consumes(s: Seq<u8>)
    ensures
        spec_single_cookie(s) matches Some((c, k)) ==> 2 <= k <= s.len(),
{
    let n = span(s, ByteClass::Name) as int;
    lemma_span(s, ByteClass::Name);
    if n > 0 && n < s.len() {
        let (n0, value_end, spaces_start, end) = cookie_bounds(s);
        lemma_span(s.skip(n + 1), ByteClass::Value);
        lemma_span(s.skip(spaces_start), ByteClass::Space);
    }
}


/// `next` may start the cookie that follows `c` without being read as part
/// of it: it is no space or tab, and `c` ends with a semicolon or spaces,
/// or `next` is a `,`.
pub open spec fn separates(c: CookieView, next: u8) -> bool {
    &&& !spec_is_space(next)
    &&& (c.semicolon is Some || c.spaces.len() > 0 || next == 44)
}

/// Every cookie is well formed and each one is separated from the next.
pub open spec fn cookies_separated(cs: Seq<CookieView>) -> bool {
    &&& forall|i: int| 0 <= i < cs.len() ==> cookie_well_formed(#[trigger] cs[i])
    &&& forall|i: int, j: int|
        0 <= i && j == i + 1 && j < cs.len() ==> separates(#[trigger] cs[i], #[trigger] cs[j].name[0])
}

/// Sum of the lengths that `get_full_length` reports for each cookie.
pub open spec fn total_full_length(cs: Seq<CookieView>) -> int
    decreases cs.len(),
{
    if cs.len() == 0 {
        0
    } else {
        full_length(cs[0]) + total_full_length(cs.drop_first())
    }
}

/// What the first cookie of `s` is made of: it is well formed, its bytes are
/// the `k` bytes it takes, its full length is `k`, and the byte after it, if
/// any, separates it from what follows.
pub proof fn lemma_single_cookie_facts(s: Seq<u8>)
    ensures
        spec_single_cookie(s) matches Some((c, k)) ==> {
            &&& cookie_well_formed(c)
            &&& cookie_bytes(c) == s.take(k as int)
            &&& full_length(c) == k
            &&& (k < s.len() ==> separates(c, s[k as int]))
        },
{
    lemma_single_cookie_consumes(s);
    if let Some((c, k)) = spec_single_cookie(s) {
        let (n, value_end, spaces_start, end) = cookie_bounds(s);
        let tv = s.skip(n + 1);
        let ts = s.skip(spaces_start);
        lemma_span(s, ByteClass::Name);
        lemma_span(tv, ByteClass::Value);
        lemma_span(ts, ByteClass::Space);
        assert(s[n] == EQUALS);
        assert forall|i: int| 0 <= i < c.name.len() implies #[trigger] c.name[i] != EQUALS by {
            assert(c.name[i] == s[i]);
        }
        assert forall|i: int| 0 <= i < c.value.len() implies spec_is_cookie_value_char(
            #[trigger] c.value[i],
        ) by {
            assert(c.value[i] == tv[i]);
        }
        assert forall|i: int| 0 <= i < c.spaces.len() implies spec_is_space(
            #[trigger] c.spaces[i],
        ) by {
            assert(c.spaces[i] == ts[i]);
        }
        if c.semicolon is None && c.spaces.len() > 0 {
            assert(c.spaces[0] == ts[0]);
            assert(ts[0] == s[value_end]);
            assert(tv[value_end - n - 1] == s[value_end]);
        }
        let semi: Seq<u8> = match c.semicolon {
            Some(x) => x,
            None => Seq::<u8>::empty(),
        };
        if spaces_start > value_end {
            assert(s.subrange(value_end, spaces_start) =~= semi);
        } else {
            assert(s.subrange(value_end, spaces_start) =~= semi);
        }
        assert(s.subrange(n, n + 1) =~= seq![EQUALS]);
        assert(cookie_bytes(c) =~= s.subrange(0, n) + s.subrange(n, n + 1) + s.subrange(
            n + 1,
            value_end,
        ) + s.subrange(value_end, spaces_start) + s.subrange(spaces_start, end));
        assert(cookie_bytes(c) =~= s.take(k as int));
        if k < s.len() {
            assert(s[k as int] == ts[end - spaces_start]);
            if !(c.semicolon is Some) && c.spaces.len() == 0 {
                assert(s[k as int] == tv[value_end - n - 1]);
            }
        }
    }
}

/// Reading a well-formed cookie back from its bytes, followed by bytes that
/// it is separated from, gives the cookie and its length.
pub proof fn lemma_single_cookie_roundtrip(c: CookieView, rest: Seq<u8>)
    requires
        cookie_well_formed(c),
        rest.len() == 0 || separates(c, rest[0]),
    ensures
        spec_single_cookie(cookie_bytes(c) + rest) == Some((c, cookie_bytes(c).len())),
{
    let semi: Seq<u8> = match c.semicolon {
        Some(x) => x,
        None => Seq::<u8>::empty(),
    };
    let b = cookie_bytes(c) + rest;
    let nl = c.name.len() as int;
    let vl = c.value.len() as int;
    let sl = semi.len() as int;
    let pl = c.spaces.len() as int;
    let ve = nl + 1 + vl;
    let ss = ve + sl;
    let end = ss + pl;
    assert(cookie_bytes(c).len() == end);
    assert forall|j: int| 0 <= j < nl implies #[trigger] b[j] == c.name[j] by {}
    assert(b[nl] == EQUALS);
    assert forall|j: int| 0 <= j < vl implies #[trigger] b[nl + 1 + j] == c.value[j] by {}
    assert forall|j: int| 0 <= j < sl implies #[trigger] b[ve + j] == semi[j] by {}
    assert forall|j: int| 0 <= j < pl implies #[trigger] b[ss + j] == c.spaces[j] by {}
    assert forall|j: int| 0 <= j < rest.len() implies #[trigger] b[end + j] == rest[j] by {}

    // the name
    assert forall|j: int| 0 <= j < nl implies in_class(ByteClass::Name, #[trigger] b[j]) by {
        assert(b[j] == c.name[j]);
    }
    lemma_span_unique(b, ByteClass::Name, nl);
    // the value
    let tv = b.skip(nl + 1);
    assert forall|j: int| 0 <= j < vl implies in_class(ByteClass::Value, #[trigger] tv[j]) by {
        assert(tv[j] == b[nl + 1 + j]);
    }
    if ve < b.len() {
        assert(tv[vl] == b[ve]);
        if sl > 0 {
            assert(c.semicolon is Some);
            assert(semi == seq![SEMICOLON]);
            assert(b[ve + 0] == semi[0]);
            assert(b[ve] == SEMICOLON);
        } else if pl > 0 {
            assert(ss == ve);
            assert(b[ss + 0] == c.spaces[0]);
            assert(c.spaces[0] == 32);
            assert(b[ve] == 32);
        } else {
            assert(c.semicolon is None);
            assert(end == ve);
            assert(rest.len() > 0);
            assert(b[end + 0] == rest[0]);
            assert(rest[0] == 44);
            assert(b[ve] == 44);
        }
        assert(!in_class(ByteClass::Value, tv[vl]));
    } else {
        assert(tv.len() == vl);
    }
    lemma_span_unique(tv, ByteClass::Value, vl);
    // the semicolon
    if ve < b.len() && b[ve] == SEMICOLON {
        if sl == 0 {
            if pl > 0 {
                assert(b[ve] == b[ss + 0]);
            } else {
                assert(b[ve] == b[end + 0]);
            }
            assert(false);
        }
    }
    if sl > 0 {
        assert(b[ve] == semi[0]);
    }
    // the spaces
    let ts = b.skip(ss);
    assert forall|j: int| 0 <= j < pl implies in_class(ByteClass::Space, #[trigger] ts[j]) by {
        assert(ts[j] == b[ss + j]);
    }
    if end < b.len() {
        assert(ts[pl] == b[end + 0]);
    }
    lemma_span_unique(ts, ByteClass::Space, pl);
    let (n0, ve0, ss0, end0) = cookie_bounds(b);
    assert(n0 == nl && ve0 == ve && ss0 == ss && end0 == end);
    assert(b.subrange(0, nl) =~= c.name);
    assert(b.subrange(nl + 1, ve) =~= c.value);
    assert(b.subrange(ss, end) =~= c.spaces);
    if let Some(x) = c.semicolon {
        assert(x == seq![SEMICOLON]);
    }
}

/// The cookies read from `s` are well formed and separated, their bytes are
/// exactly the bytes read from the start of `s`, the lengths that
/// `get_full_length` reports add up to that count, and no cookie starts
/// where reading stopped.
pub proof fn law_cookies_cover_prefix(s: Seq<u8>)
    ensures
        spec_cookies_consumed(s) <= s.len(),
        cookies_bytes(spec_cookies(s)) == s.take(spec_cookies_consumed(s) as int),
        total_full_length(spec_cookies(s)) == spec_cookies_consumed(s),
        spec_single_cookie(s.skip(spec_cookies_consumed(s) as int)) is None,
        cookies_separated(spec_cookies(s)),
    decreases s.len(),
{
    lemma_single_cookie_consumes(s);
    lemma_single_cookie_facts(s);
    match spec_single_cookie(s) {
        None => {
            assert(s.skip(0) =~= s);
            assert(s.take(0) =~= Seq::<u8>::empty());
        },
        Some((c, k)) => {
            let t = s.skip(k as int);
            law_cookies_cover_prefix(t);
            lemma_single_cookie_facts(t);
            let cs = spec_cookies(s);
            let tail = spec_cookies(t);
            let kt = spec_cookies_consumed(t);
            assert(cs == seq![c] + tail);
            assert(cs[0] == c);
            assert(cs.drop_first() =~= tail);
            assert(s.take((k + kt) as int) =~= s.take(k as int) + t.take(kt as int));
            assert(s.skip((k + kt) as int) =~= t.skip(kt as int));
            assert forall|i: int| 0 <= i < cs.len() implies cookie_well_formed(#[trigger] cs[i]) by {
                if i > 0 {
                    assert(cs[i] == tail[i - 1]);
                }
            }
            assert forall|i: int, j: int|
                0 <= i && j == i + 1 && j < cs.len() implies separates(
                #[trigger] cs[i],
                #[trigger] cs[j].name[0],
            ) by {
                assert(cs[j] == tail[j - 1]);
                if i > 0 {
                    assert(cs[i] == tail[i - 1]);
                } else {
                    // the first cookie of the tail starts at the byte after `c`
                    let (c1, k1) = spec_single_cookie(t).unwrap();
                    assert(tail[0] == c1);
                    assert(cookie_bytes(c1)[0] == c1.name[0]);
                    assert(t.take(k1 as int)[0] == t[0]);
                    assert(t[0] == s[k as int]);
                }
            }
        },
    }
}

/// Writing out separated well-formed cookies and reading the bytes back
/// gives the same cookies.
pub proof fn law_cookies_roundtrip(cs: Seq<CookieView>)
    requires
        cookies_separated(cs),
    ensures
        spec_cookies(cookies_bytes(cs)) == cs,
    decreases cs.len(),
{
    let b = cookies_bytes(cs);
    if cs.len() == 0 {
        assert(b.len() == 0);
        assert(span(b, ByteClass::Name) == 0);
        assert(spec_cookies(b) =~= cs);
    } else {
        let c = cs[0];
        let tail = cs.drop_first();
        let rest = cookies_bytes(tail);
        assert(cookie_well_formed(cs[0]));
        assert forall|i: int| 0 <= i < tail.len() implies cookie_well_formed(#[trigger] tail[i]) by {
            assert(tail[i] == cs[i + 1]);
        }
        assert forall|i: int, j: int|
            0 <= i && j == i + 1 && j < tail.len() implies separates(
            #[trigger] tail[i],
            #[trigger] tail[j].name[0],
        ) by {
            assert(tail[i] == cs[i + 1]);
            assert(tail[j] == cs[j + 1]);
        }
        law_cookies_roundtrip(tail);
        if tail.len() > 0 {
            assert(cookie_well_formed(tail[0]));
            assert(rest == cookie_bytes(tail[0]) + cookies_bytes(tail.drop_first()));
            assert(rest[0] == tail[0].name[0]);
            assert(tail[0] == cs[1]);
            assert(separates(cs[0], cs[1].name[0]));
        } else {
            assert(rest.len() == 0);
        }
        lemma_single_cookie_roundtrip(c, rest);
        let l = cookie_bytes(c).len();
        assert(b.skip(l as int) =~= rest);
        assert(spec_cookies(b) == seq![c] + spec_cookies(rest));
        assert(spec_cookies(b) =~= cs);
    }
}

/// Reading the cookies back from the bytes they were read from gives the
/// same cookies.
pub proof fn law_cookies_reread(s: Seq<u8>)
    ensures
        spec_cookies(cookies_bytes(spec_cookies(s))) == spec_cookies(s),
{
    law_cookies_cover_prefix(s);
    law_cookies_roundtrip(spec_cookies(s));
}

/// What the first cookie of `s` is, byte by byte. No cookie starts exactly
/// when `s` is empty, starts with `=`, or holds no `=`. Otherwise the name is
/// the non-empty run of bytes before the first `=`; the value is the run of
/// bytes after it up to the first space (32), `,` (44) or `;` (59); the
/// semicolon is there exactly when a `;` ends the value; the spaces are the
/// run of bytes 32 and 9 that follows, and the byte after the cookie, if any,
/// is neither. The cookie takes exactly its own bytes.
pub proof fn law_single_cookie_bytes(s: Seq<u8>)
    ensures
        spec_single_cookie(s) is None <==> (s.len() == 0 || s[0] == 61 || forall|i: int|
            0 <= i < s.len() ==> s[i] != 61),
        spec_single_cookie(s) matches Some((c, k)) ==> {
            let ve = (c.name.len() + 1 + c.value.len()) as int;
            &&& c.name.len() > 0
            &&& forall|i: int| 0 <= i < c.name.len() ==> #[trigger] c.name[i] != 61
            &&& s[c.name.len() as int] == 61
            &&& forall|i: int|
                0 <= i < c.value.len() ==> #[trigger] c.value[i] != 32 && c.value[i] != 44
                    && c.value[i] != 59
            &&& (ve < s.len() ==> s[ve] == 32 || s[ve] == 44 || s[ve] == 59)
            &&& (c.semicolon is Some <==> (ve < s.len() && s[ve] == 59))
            &&& (c.semicolon matches Some(x) ==> x == seq![59u8])
            &&& forall|i: int|
                0 <= i < c.spaces.len() ==> #[trigger] c.spaces[i] == 32 || c.spaces[i] == 9
            &&& (k < s.len() ==> s[k as int] != 32 && s[k as int] != 9)
            &&& cookie_bytes(c) == s.take(k as int)
        },
{
    let n = span(s, ByteClass::Name) as int;
    lemma_span(s, ByteClass::Name);
    lemma_single_cookie_facts(s);
    if s.len() == 0 || s[0] == 61 {
        assert(n == 0);
    }
    if forall|i: int| 0 <= i < s.len() ==> s[i] != 61 {
        lemma_span_unique(s, ByteClass::Name, s.len() as int);
    }
    if n == s.len() && s.len() > 0 {
        assert forall|i: int| 0 <= i < s.len() implies s[i] != 61 by {
            assert(in_class(ByteClass::Name, s[i]));
        }
    }
    if n == 0 && s.len() > 0 {
        assert(!in_class(ByteClass::Name, s[0]));
    }
    if let Some((c, k)) = spec_single_cookie(s) {
        let (n0, value_end, spaces_start, end) = cookie_bounds(s);
        let tv = s.skip(n + 1);
        let ts = s.skip(spaces_start);
        lemma_span(tv, ByteClass::Value);
        lemma_span(ts, ByteClass::Space);
        assert(c.name.len() == n);
        assert(c.value.len() == value_end - n - 1);
        if value_end < s.len() {
            assert(tv[value_end - n - 1] == s[value_end]);
        }
        if k < s.len() {
            assert(ts[end - spaces_start] == s[k as int]);
        }
    }
}

/// The length that `get_full_length` reports is the number of bytes the
/// cookie stands for when its semicolon is one byte; a semicolon counts as
/// one byte whatever it holds.
pub proof fn law_full_length(c: CookieView)
    ensures
        (c.semicolon matches Some(x) ==> x.len() == 1) ==> full_length(c) == cookie_bytes(c).len(),
        c.semicolon is Some ==> full_length(c) == full_length(CookieView { semicolon: None, ..c })
            + 1,
        full_length(c) == c.name.len() + 1 + c.value.len() + c.spaces.len() + (if c.semicolon is Some {
            1int
        } else {
            0int
        }),
{
}

// ---------------------------------------------------------------------------
// Executable parser
// ---------------------------------------------------------------------------

/// A cookie read from a `Cookie` header; each part borrows from the header.
#[derive(Debug)]
pub struct RequestCookie<'a> {
    pub name: &'a [u8],
    pub value: &'a [u8],
    pub semicolon: Option<&'a [u8]>,
    pub spaces: &'a [u8],
}

impl<'a> View for RequestCookie<'a> {
    type V = CookieView;

    open spec fn view(&self) -> CookieView {
        CookieView {
            name: self.name@,
            value: self.value@,
            semicolon: match self.semicolon {
                Some(s) => Some(s@),
                None => None,
            },
            spaces: self.spaces@,
        }
    }
}

impl<'a> RequestCookie<'a> {
    /// Number of header bytes the cookie takes: name, `=`, value, semicolon
    /// and spaces.
    pub fn get_full_length(&self) -> (len: usize)
        requires
            full_length(self@) <= usize::MAX,
        ensures
            len == full_length(self@),
    {
        let semicolon: usize = if self.semicolon.is_some() {
            1
        } else {
            0
        };
        let space = self.spaces.len();

        self.name.len() + self.value.len() + semicolon + space + 1
    }
}

/// Whether `chr` may stand in a cookie value: any byte but space, `,` and `;`.
pub fn is_cookie_value_char(chr: u8) -> (b: bool)
    ensures
        b == spec_is_cookie_value_char(chr),
{
    chr != 32 && chr != 44 && chr != 59
}

/// Whether `chr` is a space or a horizontal tab.
pub fn is_space(chr: u8) -> (b: bool)
    ensures
        b == spec_is_space(chr),
{
    chr == 32 || chr == 9
}

fn byte_in_class(k: ByteClass, chr: u8) -> (b: bool)
    ensures
        b == in_class(k, chr),
{
    match k {
        ByteClass::Name => chr != EQUALS,
        ByteClass::Value => is_cookie_value_char(chr),
        ByteClass::Space => is_space(chr),
    }
}

/// End of the run of bytes of class `k` that starts at `start`.
fn scan(input: &[u8], start: usize, k: ByteClass) -> (end: usize)
    requires
        start <= input@.len(),
    ensures
        start <= end <= input@.len(),
        end - start == span(input@.skip(start as int), k),
{
    let mut i = start;
    while i < input.len() && byte_in_class(k, input[i])
        invariant
            start <= i <= input@.len(),
            forall|j: int| start <= j < i ==> in_class(k, #[trigger] input@[j]),
        decreases input@.len() - i,
    {
        i = i + 1;
    }
    proof {
        let t = input@.skip(start as int);
        assert forall|j: int| 0 <= j < i - start implies in_class(k, #[trigger] t[j]) by {
            assert(t[j] == input@[start + j]);
        }
        if i < input@.len() {
            assert(t[i - start] == input@[i as int]);
        }
        lemma_span_unique(t, k, i - start);
    }
    i
}

/// Reads the first cookie of `i`: a non-empty name up to a `=`, the value
/// bytes after it, an optional `;` and the spaces or tabs that follow.
/// Returns the rest of the input with the cookie.
pub fn single_request_cookie<'a>(i: &'a [u8]) -> (res: Result<
    (&'a [u8], RequestCookie<'a>),
    CookieError,
>)
    ensures
        match spec_single_cookie(i@) {
            None => res matches Err(e) && e == spec_single_cookie_error(i@),
            Some((c, k)) => res matches Ok((rest, cookie)) && cookie@ == c && rest@ == i@.skip(
                k as int,
            ),
        },
{
    let len = i.len();
    let name_end = scan(i, 0, ByteClass::Name);
    proof {
        assert(i@.skip(0) =~= i@);
    }
    if name_end == 0 {
        return Err(CookieError::EmptyName);
    }
    if name_end == len {
        return Err(CookieError::MissingEquals);
    }
    proof {
        lemma_span(i@, ByteClass::Name);
    }
    let value_end = scan(i, name_end + 1, ByteClass::Value);
    let has_semicolon = value_end < len && i[value_end] == SEMICOLON;
    let spaces_start = if has_semicolon {
        value_end + 1
    } else {
        value_end
    };
    let end = scan(i, spaces_start, ByteClass::Space);

    let name = slice_subrange(i, 0, name_end);
    let value = slice_subrange(i, name_end + 1, value_end);
    let semicolon = if has_semicolon {
        Some(slice_subrange(i, value_end, value_end + 1))
    } else {
        None
    };
    let spaces = slice_subrange(i, spaces_start, end);
    let rest = slice_subrange(i, end, len);
    proof {
        if has_semicolon {
            assert(i@.subrange(value_end as int, value_end + 1) =~= seq![SEMICOLON]);
        }
        assert(rest@ =~= i@.skip(end as int));
    }
    Ok((rest, RequestCookie { name, value, semicolon, spaces }))
}

/// Reads every cookie at the start of `input`, one after the other, and
/// stops at the first place where no cookie starts. Always returns `Some`.
pub fn parse_request_cookies<'a>(input: &'a [u8]) -> (res: Option<Vec<RequestCookie<'a>>>)
    ensures
        res matches Some(cookies) && cookies@.len() == spec_cookies(input@).len() && forall|
            j: int,
        |
            0 <= j < cookies@.len() ==> #[trigger] cookies@[j]@ == spec_cookies(input@)[j],
{
    let mut cookies: Vec<RequestCookie<'a>> = Vec::new();
    let mut rest: &'a [u8] = input;
    loop
        invariant
            cookies@.len() + spec_cookies(rest@).len() == spec_cookies(input@).len(),
            forall|j: int|
                0 <= j < cookies@.len() ==> #[trigger] cookies@[j]@ == spec_cookies(input@)[j],
            forall|j: int|
                0 <= j < spec_cookies(rest@).len() ==> #[trigger] spec_cookies(rest@)[j]
                    == spec_cookies(input@)[cookies@.len() + j],
        decreases rest@.len(),
    {
        match single_request_cookie(rest) {
            Ok((next, cookie)) => {
                proof {
                    lemma_single_cookie_consumes(rest@);
                    let ghost old_tail = spec_cookies(rest@);
                    assert(old_tail.len() > 0);
                    assert(old_tail[0] == cookie@);
                    assert forall|j: int|
                        0 <= j < spec_cookies(next@).len() implies #[trigger] spec_cookies(
                        next@,
                    )[j] == spec_cookies(input@)[cookies@.len() + 1 + j] by {
                        assert(spec_cookies(next@)[j] == old_tail[j + 1]);
                    }
                }
                cookies.push(cookie);
                rest = next;
            },
            Err(_) => {
                return Some(cookies);
            },
        }
    }
}

} // verus!
