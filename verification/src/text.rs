//! Text as UTF-8 bytes.
//!
//! Every string the library reads is modelled by the sequence of its UTF-8
//! bytes (`spec_bytes`). Searching, trimming and splitting are defined on that
//! sequence, and the executable functions return sub-slices of their input, so
//! nothing here allocates.
use vstd::prelude::*;
use vstd::string::*;
use vstd::utf8::*;

verus! {

/// The bytes of a text that is given by its characters.
pub open spec fn bytes_of(characters: Seq<char>) -> Seq<u8> {
    encode_utf8(characters)
}

/// The bytes that model an owned string.
pub open spec fn string_bytes(s: &String) -> Seq<u8> {
    bytes_of(s@)
}

/// The empty text has no bytes.
pub proof fn lemma_empty_text()
    ensures
        bytes_of(Seq::<char>::empty()) == Seq::<u8>::empty(),
        "".spec_bytes() == Seq::<u8>::empty(),
{
    reveal_strlit("");
    assert(encode_utf8(Seq::<char>::empty()) =~= Seq::<u8>::empty());
    assert(""@ =~= Seq::<char>::empty());
}

/// `i` is a position of `b` at which a character starts or the text ends.
pub open spec fn at_boundary(b: Seq<u8>, i: int) -> bool {
    0 <= i <= b.len() && (i < b.len() ==> !is_continuation_byte(b[i]))
}

/// The number of bytes that the leading byte `first` announces for its character.
pub open spec fn scalar_width(first: u8) -> int {
    if first < 0x80 {
        1
    } else if first < 0xe0 {
        2
    } else if first < 0xf0 {
        3
    } else {
        4
    }
}

/// In well-formed UTF-8 the position just behind a whole character is a boundary again.
pub proof fn lemma_boundary_after_scalar(b: Seq<u8>, i: int)
    requires
        valid_utf8(b),
        0 <= i < b.len(),
        at_boundary(b, i),
    ensures
        i + scalar_width(b[i]) <= b.len(),
        at_boundary(b, i + scalar_width(b[i])),
{
    is_char_boundary_iff_not_is_continuation_byte(b, i);
    valid_utf8_split(b, i);
    let tail = b.subrange(i, b.len() as int);
    assert(tail[0] == b[i]);
    assert(valid_first_scalar(tail) && valid_utf8(pop_first_scalar(tail)));
    let w = length_of_first_scalar(tail);
    assert(w == scalar_width(b[i]));
    let rest = pop_first_scalar(tail);
    assert(rest =~= b.subrange(i + w, b.len() as int));
    if i + w < b.len() {
        assert(valid_first_scalar(rest));
        assert(rest[0] == b[i + w]);
    }
}

/// The bytes of a string are well-formed UTF-8, and a string starts and ends
/// at a boundary.
pub proof fn lemma_str_bytes_valid(s: &str)
    ensures
        valid_utf8(s.spec_bytes()),
        at_boundary(s.spec_bytes(), 0),
        at_boundary(s.spec_bytes(), s.spec_bytes().len() as int),
{
    encode_utf8_valid_utf8(s@);
    let b = s.spec_bytes();
    if b.len() > 0 {
        is_char_boundary_iff_not_is_continuation_byte(b, 0);
    }
}

/// Two strings have the same bytes if and only if they have the same
/// characters.
pub proof fn lemma_same_bytes_same_characters(a: &str, b: &str)
    ensures
        a.spec_bytes() == b.spec_bytes() <==> a@ == b@,
{
    encode_utf8_decode_utf8(a@);
    encode_utf8_decode_utf8(b@);
}

/// `b` holds only ASCII bytes, and at least one.
pub open spec fn is_ascii_pattern(b: Seq<u8>) -> bool {
    b.len() > 0 && forall|i: int| 0 <= i < b.len() ==> #[trigger] b[i] < 0x80
}

/// The bytes of a string of ASCII characters are those characters, one byte each.
pub proof fn lemma_ascii_text(s: &str)
    requires
        s@.len() > 0,
        is_ascii(s),
    ensures
        is_ascii_pattern(s.spec_bytes()),
        s.spec_bytes().len() == s@.len(),
        forall|i: int| 0 <= i < s@.len() ==> #[trigger] s.spec_bytes()[i] == s@[i] as u8,
{
    is_ascii_chars_encode_utf8(s@);
    let b = s.spec_bytes();
    assert forall|i: int| 0 <= i < b.len() implies #[trigger] b[i] < 0x80 by {
        assert(s@[i] as u8 == b[i]);
        assert('\0' <= s@[i] <= '\u{7f}');
    }
}

/// `p` stands in `s` at position `i`.
pub open spec fn occurs_at(s: Seq<u8>, p: Seq<u8>, i: int) -> bool {
    0 <= i && i + p.len() <= s.len() && s.subrange(i, i + p.len()) == p
}

/// The first position at or after `i` where `p` stands in `s`.
pub open spec fn find_from(s: Seq<u8>, p: Seq<u8>, i: int) -> Option<int>
    decreases s.len() - i,
{
    if i < 0 || i + p.len() > s.len() {
        None
    } else if occurs_at(s, p, i) {
        Some(i)
    } else if i < s.len() {
        find_from(s, p, i + 1)
    } else {
        None
    }
}

/// The first position where `p` stands in `s`.
pub open spec fn find(s: Seq<u8>, p: Seq<u8>) -> Option<int> {
    find_from(s, p, 0)
}

/// The last position at or before `i` where `p` stands in `s`.
pub open spec fn rfind_from(s: Seq<u8>, p: Seq<u8>, i: int) -> Option<int>
    decreases i + 1,
{
    if i < 0 {
        None
    } else if occurs_at(s, p, i) {
        Some(i)
    } else {
        rfind_from(s, p, i - 1)
    }
}

/// The last position where `p` stands in `s`.
pub open spec fn rfind(s: Seq<u8>, p: Seq<u8>) -> Option<int> {
    rfind_from(s, p, s.len() - p.len())
}

/// What `find_from` returns is the least occurrence from `i` on.
pub proof fn lemma_find_from(s: Seq<u8>, p: Seq<u8>, i: int)
    requires
        0 <= i,
    ensures
        match find_from(s, p, i) {
            Some(k) => i <= k && occurs_at(s, p, k) && forall|j: int|
                i <= j < k ==> !occurs_at(s, p, j),
            None => forall|j: int| i <= j ==> !occurs_at(s, p, j),
        },
    decreases s.len() - i,
{
    if i + p.len() > s.len() {
    } else if occurs_at(s, p, i) {
    } else if i < s.len() {
        lemma_find_from(s, p, i + 1);
    } else {
        assert(s.subrange(i, i + p.len()) =~= p);
    }
}

/// What `rfind_from` returns is the greatest occurrence up to `i`.
pub proof fn lemma_rfind_from(s: Seq<u8>, p: Seq<u8>, i: int)
    ensures
        match rfind_from(s, p, i) {
            Some(k) => 0 <= k <= i && occurs_at(s, p, k) && forall|j: int|
                k < j <= i ==> !occurs_at(s, p, j),
            None => forall|j: int| j <= i ==> !occurs_at(s, p, j),
        },
    decreases i + 1,
{
    if i < 0 {
    } else if occurs_at(s, p, i) {
    } else {
        lemma_rfind_from(s, p, i - 1);
    }
}

/// The sub-slice of `s` between two character boundaries, given as byte positions.
pub fn slice<'a>(s: &'a str, from: usize, to: usize) -> (r: &'a str)
    requires
        from <= to <= s.spec_bytes().len(),
        at_boundary(s.spec_bytes(), from as int),
        at_boundary(s.spec_bytes(), to as int),
    ensures
        r.spec_bytes() == s.spec_bytes().subrange(from as int, to as int),
{
    proof {
        let b = s.spec_bytes();
        lemma_str_bytes_valid(s);
        if (to as int) < b.len() {
            is_char_boundary_iff_not_is_continuation_byte(b, to as int);
        } else {
            is_char_boundary_start_end_of_seq(b);
        }
    }
    let (head, _) = s.split_at(to);
    proof {
        let h = head.spec_bytes();
        lemma_str_bytes_valid(head);
        if from < to {
            assert(h[from as int] == s.spec_bytes()[from as int]);
            is_char_boundary_iff_not_is_continuation_byte(h, from as int);
        } else {
            is_char_boundary_start_end_of_seq(h);
        }
    }
    let (_, r) = head.split_at(from);
    assert(head.spec_bytes().subrange(from as int, head.spec_bytes().len() as int)
        =~= s.spec_bytes().subrange(from as int, to as int));
    r
}

/// Whether `p` stands in `s` at byte position `i`.
pub fn matches_at(s: &str, p: &str, i: usize) -> (r: bool)
    ensures
        r == occurs_at(s.spec_bytes(), p.spec_bytes(), i as int),
{
    let sb = s.as_bytes();
    let pb = p.as_bytes();
    if i > sb.len() || pb.len() > sb.len() - i {
        return false;
    }
    let mut k: usize = 0;
    while k < pb.len()
        invariant
            k <= pb.len(),
            i + pb.len() <= sb.len(),
            sb@ == s.spec_bytes(),
            pb@ == p.spec_bytes(),
            forall|j: int| 0 <= j < k ==> sb@[i + j] == pb@[j],
        decreases pb.len() - k,
    {
        if sb[i + k] != pb[k] {
            proof {
                let w = sb@.subrange(i as int, i + pb@.len());
                assert(w[k as int] == sb@[i + k]);
            }
            return false;
        }
        k += 1;
    }
    assert(sb@.subrange(i as int, i + pb@.len()) =~= pb@);
    true
}

/// Whether two strings hold the same text.
pub fn same_text(a: &str, b: &str) -> (r: bool)
    ensures
        r == (a.spec_bytes() == b.spec_bytes()),
{
    if a.as_bytes().len() != b.as_bytes().len() {
        return false;
    }
    let r = matches_at(a, b, 0);
    proof {
        let x = a.spec_bytes();
        assert(x.subrange(0, x.len() as int) =~= x);
    }
    r
}

/// Whether `s` begins with `p`.
pub fn starts_with(s: &str, p: &str) -> (r: bool)
    ensures
        r == occurs_at(s.spec_bytes(), p.spec_bytes(), 0),
{
    matches_at(s, p, 0)
}

/// Whether `s` ends with `p`.
pub fn ends_with(s: &str, p: &str) -> (r: bool)
    ensures
        r == (p.spec_bytes().len() <= s.spec_bytes().len() && occurs_at(
            s.spec_bytes(),
            p.spec_bytes(),
            s.spec_bytes().len() - p.spec_bytes().len(),
        )),
{
    let n = s.as_bytes().len();
    let m = p.as_bytes().len();
    if m > n {
        return false;
    }
    matches_at(s, p, n - m)
}

/// The byte position of the first occurrence of `p` in `s`.
pub fn find_first(s: &str, p: &str) -> (r: Option<usize>)
    ensures
        match r {
            Some(i) => find(s.spec_bytes(), p.spec_bytes()) == Some(i as int),
            None => find(s.spec_bytes(), p.spec_bytes()) is None,
        },
{
    let n = s.as_bytes().len();
    let m = p.as_bytes().len();
    if m > n {
        return None;
    }
    let mut i: usize = 0;
    loop
        invariant
            m <= n,
            n == s.spec_bytes().len(),
            m == p.spec_bytes().len(),
            i <= n - m,
            find_from(s.spec_bytes(), p.spec_bytes(), i as int) == find(
                s.spec_bytes(),
                p.spec_bytes(),
            ),
        decreases n - m - i,
    {
        if matches_at(s, p, i) {
            return Some(i);
        }
        if i == n - m {
            assert(find_from(s.spec_bytes(), p.spec_bytes(), i + 1) is None);
            return None;
        }
        i += 1;
    }
}

/// The byte position of the last occurrence of `p` in `s`.
pub fn find_last(s: &str, p: &str) -> (r: Option<usize>)
    ensures
        match r {
            Some(i) => rfind(s.spec_bytes(), p.spec_bytes()) == Some(i as int),
            None => rfind(s.spec_bytes(), p.spec_bytes()) is None,
        },
{
    let n = s.as_bytes().len();
    let m = p.as_bytes().len();
    if m > n {
        return None;
    }
    let mut i: usize = n - m;
    loop
        invariant
            m <= n,
            n == s.spec_bytes().len(),
            m == p.spec_bytes().len(),
            i <= n - m,
            rfind_from(s.spec_bytes(), p.spec_bytes(), i as int) == rfind(
                s.spec_bytes(),
                p.spec_bytes(),
            ),
        decreases i,
    {
        if matches_at(s, p, i) {
            return Some(i);
        }
        if i == 0 {
            assert(rfind_from(s.spec_bytes(), p.spec_bytes(), -1) is None);
            return None;
        }
        i -= 1;
    }
}

/// The three bytes `x y z` encode a white-space character.
pub open spec fn is_space3(x: u8, y: u8, z: u8) -> bool {
    ||| (x == 0xe1 && y == 0x9a && z == 0x80)
    ||| (x == 0xe2 && y == 0x80 && (0x80 <= z <= 0x8a || z == 0xa8 || z == 0xa9 || z == 0xaf))
    ||| (x == 0xe2 && y == 0x81 && z == 0x9f)
    ||| (x == 0xe3 && y == 0x80 && z == 0x80)
}

/// The two bytes `x y` encode a white-space character.
pub open spec fn is_space2(x: u8, y: u8) -> bool {
    x == 0xc2 && (y == 0x85 || y == 0xa0)
}

/// The byte `x` is an ASCII white-space character.
pub open spec fn is_space1(x: u8) -> bool {
    x == 0x20 || 0x09 <= x <= 0x0d
}

/// The width in bytes of the white-space character that starts at position
/// `i` of `b`, or 0 where none starts there. White space is what Unicode
/// calls `White_Space`.
pub open spec fn space_width_at(b: Seq<u8>, i: int) -> int {
    if i < 0 || i >= b.len() {
        0
    } else if is_space1(b[i]) {
        1
    } else if i + 1 < b.len() && is_space2(b[i], b[i + 1]) {
        2
    } else if i + 2 < b.len() && is_space3(b[i], b[i + 1], b[i + 2]) {
        3
    } else {
        0
    }
}

/// The width in bytes of the white-space character that ends just before
/// position `j` of `b` and starts at `lo` or later, or 0 where there is none.
pub open spec fn space_width_before(b: Seq<u8>, lo: int, j: int) -> int {
    if lo < 0 || j > b.len() {
        0
    } else if lo <= j - 1 && is_space1(b[j - 1]) {
        1
    } else if lo <= j - 2 && is_space2(b[j - 2], b[j - 1]) {
        2
    } else if lo <= j - 3 && is_space3(b[j - 3], b[j - 2], b[j - 1]) {
        3
    } else {
        0
    }
}

/// The first position from `i` on at which no white-space character starts.
pub open spec fn trim_start_index(b: Seq<u8>, i: int) -> int
    decreases b.len() - i,
{
    if space_width_at(b, i) > 0 {
        trim_start_index(b, i + space_width_at(b, i))
    } else {
        i
    }
}

/// The last position down from `j` before which no white-space character ends,
/// never going below `lo`.
pub open spec fn trim_end_index(b: Seq<u8>, lo: int, j: int) -> int
    decreases j,
{
    if space_width_before(b, lo, j) > 0 {
        trim_end_index(b, lo, j - space_width_before(b, lo, j))
    } else {
        j
    }
}

/// `b` without the white space at its start and at its end.
pub open spec fn trimmed(b: Seq<u8>) -> Seq<u8> {
    let i = trim_start_index(b, 0);
    b.subrange(i, trim_end_index(b, i, b.len() as int))
}

fn space_at(b: &[u8], i: usize) -> (w: usize)
    requires
        i <= b@.len(),
    ensures
        w == space_width_at(b@, i as int),
{
    let n = b.len();
    if i >= n {
        return 0;
    }
    let x = b[i];
    if x == 0x20 || (0x09 <= x && x <= 0x0d) {
        return 1;
    }
    if n - i >= 2 {
        let y = b[i + 1];
        if x == 0xc2 && (y == 0x85 || y == 0xa0) {
            return 2;
        }
        if n - i >= 3 {
            let z = b[i + 2];
            if (x == 0xe1 && y == 0x9a && z == 0x80) || (x == 0xe2 && y == 0x80 && ((0x80 <= z
                && z <= 0x8a) || z == 0xa8 || z == 0xa9 || z == 0xaf)) || (x == 0xe2 && y == 0x81
                && z == 0x9f) || (x == 0xe3 && y == 0x80 && z == 0x80) {
                return 3;
            }
        }
    }
    0
}

fn space_before(b: &[u8], lo: usize, j: usize) -> (w: usize)
    requires
        lo <= j <= b@.len(),
    ensures
        w == space_width_before(b@, lo as int, j as int),
        w <= j - lo,
{
    if j - lo >= 1 {
        let z = b[j - 1];
        if z == 0x20 || (0x09 <= z && z <= 0x0d) {
            return 1;
        }
        if j - lo >= 2 {
            let y = b[j - 2];
            if y == 0xc2 && (z == 0x85 || z == 0xa0) {
                return 2;
            }
            if j - lo >= 3 {
                let x = b[j - 3];
                if (x == 0xe1 && y == 0x9a && z == 0x80) || (x == 0xe2 && y == 0x80 && ((0x80
                    <= z && z <= 0x8a) || z == 0xa8 || z == 0xa9 || z == 0xaf)) || (x == 0xe2
                    && y == 0x81 && z == 0x9f) || (x == 0xe3 && y == 0x80 && z == 0x80) {
                    return 3;
                }
            }
        }
    }
    0
}

/// `s` without the white space at its start and at its end.
pub fn trim<'a>(s: &'a str) -> (r: &'a str)
    ensures
        r.spec_bytes() == trimmed(s.spec_bytes()),
{
    let b = s.as_bytes();
    let n = b.len();
    proof {
        lemma_str_bytes_valid(s);
    }
    let mut i: usize = 0;
    loop
        invariant_except_break
            trim_start_index(b@, i as int) == trim_start_index(b@, 0),
        invariant
            b@ == s.spec_bytes(),
            valid_utf8(b@),
            n == b@.len(),
            i <= n,
            at_boundary(b@, i as int),
        ensures
            i as int == trim_start_index(b@, 0),
        decreases n - i,
    {
        let w = space_at(b, i);
        if w == 0 {
            break;
        }
        proof {
            lemma_boundary_after_scalar(b@, i as int);
        }
        i += w;
    }
    let mut j: usize = n;
    loop
        invariant_except_break
            trim_end_index(b@, i as int, j as int) == trim_end_index(b@, i as int, n as int),
        invariant
            b@ == s.spec_bytes(),
            n == b@.len(),
            i <= j <= n,
            at_boundary(b@, j as int),
        ensures
            j as int == trim_end_index(b@, i as int, n as int),
        decreases j,
    {
        let w = space_before(b, i, j);
        if w == 0 {
            break;
        }
        j -= w;
    }
    slice(s, i, j)
}

/// The position reached from `i` by stepping over `p` as often as it stands there.
pub open spec fn skip_prefixes(s: Seq<u8>, p: Seq<u8>, i: int) -> int
    decreases s.len() - i,
{
    if p.len() > 0 && occurs_at(s, p, i) {
        skip_prefixes(s, p, i + p.len())
    } else {
        i
    }
}

/// `s` without every copy of `p` that it begins with.
pub open spec fn strip_prefixes(s: Seq<u8>, p: Seq<u8>) -> Seq<u8> {
    s.subrange(skip_prefixes(s, p, 0), s.len() as int)
}

/// The position reached from `j` by stepping back over `p` as often as it ends there.
pub open spec fn skip_suffixes(s: Seq<u8>, p: Seq<u8>, j: int) -> int
    decreases j,
{
    if p.len() > 0 && occurs_at(s, p, j - p.len()) {
        skip_suffixes(s, p, j - p.len())
    } else {
        j
    }
}

/// `s` without every copy of `p` that it ends with.
pub open spec fn strip_suffixes(s: Seq<u8>, p: Seq<u8>) -> Seq<u8> {
    s.subrange(0, skip_suffixes(s, p, s.len() as int))
}

/// `s` without every copy of the ASCII text `p` that it begins with.
pub(crate) fn trim_start_matches<'a>(s: &'a str, p: &str) -> (r: &'a str)
    requires
        is_ascii_pattern(p.spec_bytes()),
    ensures
        r.spec_bytes() == strip_prefixes(s.spec_bytes(), p.spec_bytes()),
{
    let n = s.as_bytes().len();
    let m = p.as_bytes().len();
    proof {
        lemma_str_bytes_valid(s);
    }
    let mut i: usize = 0;
    loop
        invariant_except_break
            skip_prefixes(s.spec_bytes(), p.spec_bytes(), i as int) == skip_prefixes(
                s.spec_bytes(),
                p.spec_bytes(),
                0,
            ),
        invariant
            is_ascii_pattern(p.spec_bytes()),
            valid_utf8(s.spec_bytes()),
            n == s.spec_bytes().len(),
            m == p.spec_bytes().len(),
            i <= n,
            at_boundary(s.spec_bytes(), i as int),
        ensures
            i as int == skip_prefixes(s.spec_bytes(), p.spec_bytes(), 0),
        decreases n - i,
    {
        if !matches_at(s, p, i) {
            break;
        }
        proof {
            let sb = s.spec_bytes();
            let pb = p.spec_bytes();
            let last = i + m - 1;
            assert(sb.subrange(i as int, i + m)[m - 1] == pb[m - 1]);
            assert(sb[last] < 0x80);
            lemma_boundary_after_scalar(sb, last);
        }
        i += m;
    }
    slice(s, i, n)
}

/// `s` without every copy of the ASCII text `p` that it ends with.
pub(crate) fn trim_end_matches<'a>(s: &'a str, p: &str) -> (r: &'a str)
    requires
        is_ascii_pattern(p.spec_bytes()),
    ensures
        r.spec_bytes() == strip_suffixes(s.spec_bytes(), p.spec_bytes()),
{
    let n = s.as_bytes().len();
    let m = p.as_bytes().len();
    proof {
        lemma_str_bytes_valid(s);
    }
    let mut j: usize = n;
    loop
        invariant_except_break
            skip_suffixes(s.spec_bytes(), p.spec_bytes(), j as int) == skip_suffixes(
                s.spec_bytes(),
                p.spec_bytes(),
                n as int,
            ),
        invariant
            is_ascii_pattern(p.spec_bytes()),
            n == s.spec_bytes().len(),
            m == p.spec_bytes().len(),
            j <= n,
            at_boundary(s.spec_bytes(), 0),
            at_boundary(s.spec_bytes(), j as int),
        ensures
            j as int == skip_suffixes(s.spec_bytes(), p.spec_bytes(), n as int),
        decreases j,
    {
        if j < m || !matches_at(s, p, j - m) {
            break;
        }
        proof {
            let sb = s.spec_bytes();
            let pb = p.spec_bytes();
            assert(sb.subrange(j - m, j as int)[0] == pb[0]);
        }
        j -= m;
    }
    slice(s, 0, j)
}

/// The lines of `s` from position `i` on, the line that is being read having
/// started at `start`. A line ends at a line feed; the line feed, and a
/// carriage return right before it, belong to no line. What follows the last
/// line feed is a line too, unless it is empty.
pub open spec fn lines_scan(s: Seq<u8>, start: int, i: int) -> Seq<Seq<u8>>
    decreases s.len() - i,
{
    if i < 0 || start < 0 || start > i {
        seq![]
    } else if i >= s.len() {
        if start < s.len() {
            seq![s.subrange(start, s.len() as int)]
        } else {
            seq![]
        }
    } else if s[i] == 0x0a {
        let end = if start < i && s[i - 1] == 0x0d {
            i - 1
        } else {
            i
        };
        seq![s.subrange(start, end)] + lines_scan(s, i + 1, i + 1)
    } else {
        lines_scan(s, start, i + 1)
    }
}

/// The lines of `s`.
pub open spec fn split_lines(s: Seq<u8>) -> Seq<Seq<u8>> {
    lines_scan(s, 0, 0)
}

/// The texts that a sequence of string slices holds.
pub open spec fn texts(v: Seq<&str>) -> Seq<Seq<u8>> {
    v.map_values(|s: &str| s.spec_bytes())
}

/// The lines of `data`, each a slice of it.
pub fn lines<'a>(data: &'a str) -> (out: Vec<&'a str>)
    ensures
        texts(out@) == split_lines(data.spec_bytes()),
{
    let b = data.as_bytes();
    let n = b.len();
    let mut out: Vec<&'a str> = Vec::new();
    let mut start: usize = 0;
    let mut i: usize = 0;
    proof {
        lemma_str_bytes_valid(data);
        assert(texts(out@) =~= Seq::<Seq<u8>>::empty());
    }
    while i < n
        invariant
            b@ == data.spec_bytes(),
            valid_utf8(b@),
            n == b@.len(),
            start <= i <= n,
            at_boundary(b@, start as int),
            texts(out@) + lines_scan(b@, start as int, i as int) == split_lines(b@),
        decreases n - i,
    {
        if b[i] == 0x0a {
            let end = if start < i && b[i - 1] == 0x0d {
                i - 1
            } else {
                i
            };
            let line = slice(data, start, end);
            proof {
                lemma_boundary_after_scalar(b@, i as int);
                let before = texts(out@);
                let rest = lines_scan(b@, i + 1, i + 1);
                assert(texts(out@.push(line)) =~= before.push(line.spec_bytes()));
                assert(before.push(line.spec_bytes()) + rest =~= before + (seq![
                    line.spec_bytes(),
                ] + rest));
            }
            out.push(line);
            start = i + 1;
        }
        i += 1;
    }
    if start < n {
        let line = slice(data, start, n);
        proof {
            let before = texts(out@);
            assert(texts(out@.push(line)) =~= before.push(line.spec_bytes()));
            assert(before.push(line.spec_bytes()) =~= before + seq![line.spec_bytes()]);
        }
        out.push(line);
    } else {
        assert(texts(out@) + Seq::<Seq<u8>>::empty() =~= texts(out@));
    }
    out
}

/// The byte `b` with an ASCII capital letter turned into its small letter.
pub open spec fn to_ascii_lower(b: u8) -> u8 {
    if 0x41 <= b <= 0x5a {
        (b + 0x20) as u8
    } else {
        b
    }
}

/// The text `s` with its ASCII capital letters turned into small letters.
pub open spec fn ascii_lowercase(s: Seq<u8>) -> Seq<u8> {
    s.map_values(|b: u8| to_ascii_lower(b))
}

/// Whether `s` is `word` when its ASCII capital letters are turned into
/// small letters.
pub fn is_word_ignoring_case(s: &str, word: &str) -> (r: bool)
    ensures
        r == (ascii_lowercase(s.spec_bytes()) == word.spec_bytes()),
{
    let sb = s.as_bytes();
    let wb = word.as_bytes();
    if sb.len() != wb.len() {
        return false;
    }
    let mut i: usize = 0;
    while i < sb.len()
        invariant
            sb@ == s.spec_bytes(),
            wb@ == word.spec_bytes(),
            sb@.len() == wb@.len(),
            i <= sb@.len(),
            forall|j: int| 0 <= j < i ==> to_ascii_lower(sb@[j]) == wb@[j],
        decreases sb@.len() - i,
    {
        let b = sb[i];
        let lower = if 0x41 <= b && b <= 0x5a {
            b + 0x20
        } else {
            b
        };
        if lower != wb[i] {
            proof {
                assert(ascii_lowercase(sb@)[i as int] == to_ascii_lower(sb@[i as int]));
            }
            return false;
        }
        i += 1;
    }
    assert(ascii_lowercase(sb@) =~= wb@);
    true
}

} // verus!
