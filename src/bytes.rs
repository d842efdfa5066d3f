//! Byte-sequence helpers shared by the request and control logic.
use vstd::prelude::*;
use vstd::utf8::{encode_utf8, valid_utf8};

verus! {

pub const SPACE: u8 = 32;

pub const SLASH: u8 = 47;

/// First index at or after `i` where `s` holds `b`, or `s.len()` when none does.
pub open spec fn find_from(s: Seq<u8>, b: u8, i: int) -> int
    decreases s.len() - i,
{
    if i < 0 || i >= s.len() {
        s.len() as int
    } else if s[i] == b {
        i
    } else {
        find_from(s, b, i + 1)
    }
}

/// `s` with every occurrence of `b` removed.
pub open spec fn without_byte(s: Seq<u8>, b: u8) -> Seq<u8>
    decreases s.len(),
{
    if s.len() == 0 {
        s
    } else {
        let rest = without_byte(s.drop_last(), b);
        if s.last() == b {
            rest
        } else {
            rest.push(s.last())
        }
    }
}

/// ASCII decimal digits of `n`, most significant first, without leading zeros.
pub open spec fn decimal(n: nat) -> Seq<u8>
    decreases n,
{
    if n < 10 {
        seq![(48 + n) as u8]
    } else {
        decimal(n / 10).push((48 + n % 10) as u8)
    }
}

/// Joins a file name onto a directory path the way a path buffer does on
/// Unix: an absolute `file` replaces `dir`, otherwise a separator is put
/// between them unless `dir` is empty or already ends with one.
pub open spec fn join_path(dir: Seq<u8>, file: Seq<u8>) -> Seq<u8> {
    if file.len() > 0 && file[0] == SLASH {
        file
    } else if dir.len() == 0 || dir.last() == SLASH {
        dir + file
    } else {
        dir.push(SLASH) + file
    }
}

/// Whether `s` ends with the four bytes `\r\n\r\n`.
pub open spec fn ends_with_blank_line(s: Seq<u8>) -> bool {
    s.len() >= 4 && s.subrange(s.len() - 4, s.len() as int) == seq![13u8, 10u8, 13u8, 10u8]
}

/// Appends all of `s` to `v`.
pub fn push_all(v: &mut Vec<u8>, s: &[u8])
    ensures
        final(v)@ == old(v)@ + s@,
{
    let mut i: usize = 0;
    while i < s.len()
        invariant
            i <= s@.len(),
            v@ == old(v)@ + s@.subrange(0, i as int),
        decreases s@.len() - i,
    {
        v.push(s[i]);
        i = i + 1;
        assert(s@.subrange(0, i as int) =~= s@.subrange(0, i - 1) + seq![s@[i - 1]]);
    }
    assert(s@.subrange(0, i as int) =~= s@);
}

/// Appends `s[lo..hi]` to `v`.
pub fn push_range(v: &mut Vec<u8>, s: &[u8], lo: usize, hi: usize)
    requires
        lo <= hi <= s@.len(),
    ensures
        final(v)@ == old(v)@ + s@.subrange(lo as int, hi as int),
{
    let mut i: usize = lo;
    while i < hi
        invariant
            lo <= i <= hi <= s@.len(),
            v@ == old(v)@ + s@.subrange(lo as int, i as int),
        decreases hi - i,
    {
        v.push(s[i]);
        i = i + 1;
        assert(s@.subrange(lo as int, i as int) =~= s@.subrange(lo as int, i - 1) + seq![s@[i - 1]]);
    }
}

/// Index of the first `b` in `s` at or after `from`, or `s.len()`.
pub fn find_byte(s: &[u8], b: u8, from: usize) -> (r: usize)
    requires
        from <= s@.len(),
    ensures
        r == find_from(s@, b, from as int),
        from <= r <= s@.len(),
{
    let mut i: usize = from;
    while i < s.len() && s[i] != b
        invariant
            from <= i <= s@.len(),
            find_from(s@, b, i as int) == find_from(s@, b, from as int),
        decreases s@.len() - i,
    {
        i = i + 1;
    }
    i
}

/// Appends `s` with every `b` removed to `v`.
pub fn push_without(v: &mut Vec<u8>, s: &[u8], b: u8)
    ensures
        final(v)@ == old(v)@ + without_byte(s@, b),
{
    let mut i: usize = 0;
    while i < s.len()
        invariant
            i <= s@.len(),
            v@ == old(v)@ + without_byte(s@.subrange(0, i as int), b),
        decreases s@.len() - i,
    {
        assert(s@.subrange(0, i + 1).drop_last() =~= s@.subrange(0, i as int));
        if s[i] != b {
            v.push(s[i]);
        }
        i = i + 1;
    }
    assert(s@.subrange(0, i as int) =~= s@);
}

/// Appends the decimal digits of `n` to `v`.
pub fn push_decimal(v: &mut Vec<u8>, n: usize)
    ensures
        final(v)@ == old(v)@ + decimal(n as nat),
    decreases n,
{
    if n >= 10 {
        push_decimal(v, n / 10);
    }
    v.push((48 + n % 10) as u8);
    assert(final(v)@ =~= old(v)@ + decimal(n as nat));
}

/// Whether `s` ends with `\r\n\r\n`.
pub fn has_blank_line_end(s: &[u8]) -> (r: bool)
    ensures
        r == ends_with_blank_line(s@),
{
    let n = s.len();
    if n < 4 {
        return false;
    }
    let r = s[n - 4] == 13 && s[n - 3] == 10 && s[n - 2] == 13 && s[n - 1] == 10;
    let ghost tail = s@.subrange(n - 4, n as int);
    assert(tail[0] == s@[n - 4] && tail[1] == s@[n - 3] && tail[2] == s@[n - 2] && tail[3]
        == s@[n - 1]);
    if r {
        assert(tail =~= seq![13u8, 10u8, 13u8, 10u8]);
    }
    r
}

/// Appends `file` joined onto `dir` to `v`.
pub fn push_joined(v: &mut Vec<u8>, dir: &[u8], file: &[u8])
    ensures
        final(v)@ == old(v)@ + join_path(dir@, file@),
{
    if file.len() > 0 && file[0] == SLASH {
        push_all(v, file);
    } else {
        push_all(v, dir);
        if dir.len() > 0 && dir[dir.len() - 1] != SLASH {
            v.push(SLASH);
        }
        push_all(v, file);
    }
    assert(final(v)@ =~= old(v)@ + join_path(dir@, file@));
}

/// Text decoded from bytes, with each invalid UTF-8 sequence replaced by
/// U+FFFD; valid UTF-8 decodes to the text it encodes.
pub uninterp spec fn lossy_text(b: Seq<u8>) -> Seq<char>;

/// Relies on `String::from_utf8_lossy`: the text depends on the bytes
/// alone, and valid UTF-8 comes back as the text it encodes.
#[verifier::external_body]
pub(crate) fn decode_lossy(b: &[u8]) -> (r: String)
    ensures
        r@ == lossy_text(b@),
        valid_utf8(b@) ==> encode_utf8(r@) == b@,
{
    String::from_utf8_lossy(b).into_owned()
}

} // verus!
