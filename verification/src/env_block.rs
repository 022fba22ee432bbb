//! Reading a Windows process environment block: a run of UTF-16LE strings
//! separated by NUL characters, of which the launcher-related variables
//! are kept.
use vstd::prelude::*;
use crate::text::{
    chars_of, decode_utf16_lossy, has_prefix, is_unicode_whitespace, is_whitespace,
    starts_with, string_from_chars, utf16_lossy_decoding,
};

verus! {

/// Buffer size used when the reported environment size is unusable.
pub const DEFAULT_ENV_BUFFER: usize = 32768;

/// Largest reported environment size that is trusted as is.
pub const MAX_TRUSTED_ENV_SIZE: usize = 1048576;

/// The number of bytes to read for an environment block whose size field
/// reads `reported`: the field itself, unless it is zero or above one MiB.
pub open spec fn spec_env_buffer_size(reported: u32) -> nat {
    if reported == 0 || reported > MAX_TRUSTED_ENV_SIZE {
        DEFAULT_ENV_BUFFER as nat
    } else {
        reported as nat
    }
}

/// Chooses how many bytes of the environment block to read.
pub fn env_buffer_size(reported: u32) -> (size: usize)
    ensures
        size == spec_env_buffer_size(reported),
{
    let size: usize = reported as usize;
    if size == 0 || size > MAX_TRUSTED_ENV_SIZE {
        DEFAULT_ENV_BUFFER
    } else {
        size
    }
}

/// The little-endian 16-bit value of two bytes.
pub open spec fn le_u16(lo: u8, hi: u8) -> u16 {
    (lo as int + 256 * (hi as int)) as u16
}

/// The UTF-16 code units of a little-endian byte buffer; a trailing odd
/// byte is not part of any unit.
pub open spec fn spec_utf16le_units(bytes: Seq<u8>) -> Seq<u16> {
    Seq::new(bytes.len() / 2, |i: int| le_u16(bytes[2 * i], bytes[2 * i + 1]))
}

/// Splits a byte buffer into little-endian 16-bit code units.
pub fn utf16le_units(bytes: &[u8]) -> (units: Vec<u16>)
    ensures
        units@ == spec_utf16le_units(bytes@),
{
    let len: usize = bytes.len();
    let n: usize = len / 2;
    let mut units: Vec<u16> = Vec::new();
    let mut i: usize = 0;
    while i < n
        invariant
            len == bytes@.len(),
            n == len / 2,
            n * 2 <= len,
            i <= n,
            units@.len() == i,
            forall|j: int| 0 <= j < i ==> units@[j] == le_u16(bytes@[2 * j], bytes@[2 * j + 1]),
        decreases n - i,
    {
        assert(2 * i + 1 < bytes@.len());
        let j: usize = i + i;
        let lo: u8 = bytes[j];
        let hi: u8 = bytes[j + 1];
        let unit: u16 = lo as u16 + (hi as u16) * 256;
        units.push(unit);
        i = i + 1;
    }
    assert(units@ =~= spec_utf16le_units(bytes@));
    units
}

/// The text of an environment block, decoded from UTF-16LE with invalid
/// code units replaced.
pub open spec fn spec_env_block_text(bytes: Seq<u8>) -> Seq<char> {
    utf16_lossy_decoding(spec_utf16le_units(bytes))
}

/// Decodes an environment block read from another process.
pub fn env_block_text(bytes: &[u8]) -> (text: String)
    ensures
        text@ == spec_env_block_text(bytes@),
{
    let units = utf16le_units(bytes);
    decode_utf16_lossy(units.as_slice())
}

/// `s` cut at every occurrence of `sep`; the pieces keep their order, and
/// there is one more piece than there are separators.
pub open spec fn split_on(s: Seq<char>, sep: char) -> Seq<Seq<char>>
    decreases s.len(),
{
    if s.len() == 0 {
        seq![Seq::<char>::empty()]
    } else {
        let p = split_on(s.drop_last(), sep);
        if s.last() == sep {
            p.push(Seq::<char>::empty())
        } else {
            p.update(p.len() - 1, p.last().push(s.last()))
        }
    }
}

/// `s` without its leading whitespace.
pub open spec fn trim_start(s: Seq<char>) -> Seq<char>
    decreases s.len(),
{
    if s.len() > 0 && is_unicode_whitespace(s[0]) {
        trim_start(s.drop_first())
    } else {
        s
    }
}

/// `s` without its trailing whitespace.
pub open spec fn trim_end(s: Seq<char>) -> Seq<char>
    decreases s.len(),
{
    if s.len() > 0 && is_unicode_whitespace(s.last()) {
        trim_end(s.drop_last())
    } else {
        s
    }
}

/// `s` without leading and trailing whitespace (as `str::trim`).
pub open spec fn trim(s: Seq<char>) -> Seq<char> {
    trim_end(trim_start(s))
}

/// Whether a trimmed environment entry is one the dump reports: it is not
/// empty and names a launcher, store, path or gRPC variable.
pub open spec fn is_reported_entry(e: Seq<char>) -> bool {
    &&& e.len() > 0
    &&& {
        ||| has_prefix(e, "KYBER_"@)
        ||| has_prefix(e, "MAXIMA_"@)
        ||| has_prefix(e, "EA"@)
        ||| has_prefix(e, "MX"@)
        ||| has_prefix(e, "Origin"@)
        ||| has_prefix(e, "Content"@)
        ||| has_prefix(e, "PATH="@)
        ||| has_prefix(e, "GRPC_"@)
    }
}

/// The trimmed pieces that are reported, in order.
pub open spec fn reported_pieces(pieces: Seq<Seq<char>>) -> Seq<Seq<char>>
    decreases pieces.len(),
{
    if pieces.len() == 0 {
        Seq::empty()
    } else {
        let r = reported_pieces(pieces.drop_last());
        let t = trim(pieces.last());
        if is_reported_entry(t) {
            r.push(t)
        } else {
            r
        }
    }
}

/// The entries that the dump reports for an environment text.
pub open spec fn spec_reported_entries(text: Seq<char>) -> Seq<Seq<char>> {
    reported_pieces(split_on(text, '\0'))
}

/// Whether an entry is reported.
pub fn is_reported(e: &Vec<char>) -> (r: bool)
    ensures
        r == is_reported_entry(e@),
{
    proof {
        reveal_strlit("KYBER_");
        reveal_strlit("MAXIMA_");
        reveal_strlit("EA");
        reveal_strlit("MX");
        reveal_strlit("Origin");
        reveal_strlit("Content");
        reveal_strlit("PATH=");
        reveal_strlit("GRPC_");
    }
    e.len() > 0 && (starts_with(e, "KYBER_") || starts_with(e, "MAXIMA_") || starts_with(
        e,
        "EA",
    ) || starts_with(e, "MX") || starts_with(e, "Origin") || starts_with(e, "Content")
        || starts_with(e, "PATH=") || starts_with(e, "GRPC_"))
}

proof fn lemma_trim_start_step(s: Seq<char>, lo: int, hi: int)
    requires
        0 <= lo < hi <= s.len(),
        is_unicode_whitespace(s[lo]),
    ensures
        trim_start(s.subrange(lo, hi)) == trim_start(s.subrange(lo + 1, hi)),
{
    assert(s.subrange(lo, hi).drop_first() =~= s.subrange(lo + 1, hi));
}

proof fn lemma_trim_end_step(s: Seq<char>, lo: int, hi: int)
    requires
        0 <= lo < hi <= s.len(),
        is_unicode_whitespace(s[hi - 1]),
    ensures
        trim_end(s.subrange(lo, hi)) == trim_end(s.subrange(lo, hi - 1)),
{
    assert(s.subrange(lo, hi).drop_last() =~= s.subrange(lo, hi - 1));
}

/// The piece `text[lo..hi]` with surrounding whitespace removed.
fn trimmed_piece(text: &Vec<char>, lo: usize, hi: usize) -> (r: Vec<char>)
    requires
        lo <= hi <= text@.len(),
    ensures
        r@ == trim(text@.subrange(lo as int, hi as int)),
{
    let mut a: usize = lo;
    while a < hi && is_whitespace(text[a])
        invariant
            lo <= a <= hi <= text@.len(),
            trim_start(text@.subrange(lo as int, hi as int)) == trim_start(
                text@.subrange(a as int, hi as int),
            ),
        decreases hi - a,
    {
        proof {
            lemma_trim_start_step(text@, a as int, hi as int);
        }
        a = a + 1;
    }
    assert(trim_start(text@.subrange(a as int, hi as int)) == text@.subrange(a as int, hi as int));
    let mut b: usize = hi;
    while b > a && is_whitespace(text[b - 1])
        invariant
            lo <= a <= b <= hi <= text@.len(),
            trim_end(text@.subrange(a as int, hi as int)) == trim_end(
                text@.subrange(a as int, b as int),
            ),
        decreases b - a,
    {
        proof {
            lemma_trim_end_step(text@, a as int, b as int);
        }
        b = b - 1;
    }
    assert(trim_end(text@.subrange(a as int, b as int)) == text@.subrange(a as int, b as int));
    let mut r: Vec<char> = Vec::new();
    let mut k: usize = a;
    while k < b
        invariant
            a <= k <= b <= text@.len(),
            r@ == text@.subrange(a as int, k as int),
        decreases b - k,
    {
        r.push(text[k]);
        k = k + 1;
        assert(r@ =~= text@.subrange(a as int, k as int));
    }
    r
}

/// The text of each reported entry.
pub open spec fn entries_view(v: Seq<String>) -> Seq<Seq<char>> {
    v.map_values(|s: String| s@)
}

/// The launcher-related entries of an environment text: the text is cut at
/// NUL characters, each piece is trimmed, and the non-empty pieces that
/// start with a reported prefix are kept, in order.
pub fn reported_entries(text: &str) -> (entries: Vec<String>)
    ensures
        entries_view(entries@) == spec_reported_entries(text@),
{
    let chars = chars_of(text);
    let mut entries: Vec<String> = Vec::new();
    let mut start: usize = 0;
    let mut k: usize = 0;
    while k < chars.len()
        invariant
            chars@ == text@,
            start <= k <= chars@.len(),
            split_on(chars@.take(k as int), '\0').len() > 0,
            split_on(chars@.take(k as int), '\0').last() == chars@.subrange(start as int, k as int),
            entries_view(entries@) == reported_pieces(
                split_on(chars@.take(k as int), '\0').drop_last(),
            ),
        decreases chars@.len() - k,
    {
        let ghost prev = split_on(chars@.take(k as int), '\0');
        assert(chars@.take(k + 1).drop_last() =~= chars@.take(k as int));
        if chars[k] == '\0' {
            let piece = trimmed_piece(&chars, start, k);
            let ghost old_entries = entries@;
            if is_reported(&piece) {
                entries.push(string_from_chars(piece.as_slice()));
                assert(entries_view(entries@) =~= entries_view(old_entries).push(piece@));
            }
            assert(prev.push(Seq::<char>::empty()).drop_last() =~= prev);
            start = k + 1;
        } else {
            assert(chars@.subrange(start as int, k + 1) =~= chars@.subrange(start as int, k as int).push(chars@[k as int]));
            assert(prev.update(prev.len() - 1, prev.last().push(chars@[k as int])).drop_last() =~= prev.drop_last());
        }
        k = k + 1;
    }
    let piece = trimmed_piece(&chars, start, k);
    let ghost old_entries = entries@;
    if is_reported(&piece) {
        entries.push(string_from_chars(piece.as_slice()));
        assert(entries_view(entries@) =~= entries_view(old_entries).push(piece@));
    }
    assert(chars@.take(k as int) =~= text@);
    entries
}

/// The reported entries of an environment block as read from memory.
pub fn dump_env_block(bytes: &[u8]) -> (entries: Vec<String>)
    ensures
        entries_view(entries@) == spec_reported_entries(spec_env_block_text(bytes@)),
{
    let text = env_block_text(bytes);
    reported_entries(text.as_str())
}

/// The pieces joined back together with `sep` between each two.
pub open spec fn join_on(pieces: Seq<Seq<char>>, sep: char) -> Seq<char>
    decreases pieces.len(),
{
    if pieces.len() == 0 {
        Seq::empty()
    } else if pieces.len() == 1 {
        pieces[0]
    } else {
        join_on(pieces.drop_last(), sep).push(sep) + pieces.last()
    }
}

proof fn lemma_split_on_nonempty(s: Seq<char>, sep: char)
    ensures
        split_on(s, sep).len() >= 1,
    decreases s.len(),
{
    if s.len() > 0 {
        lemma_split_on_nonempty(s.drop_last(), sep);
    }
}

/// Cutting a text at a separator loses nothing: the pieces hold no
/// separator, and joining them with the separator gives the text back.
pub proof fn lemma_split_on_join(s: Seq<char>, sep: char)
    ensures
        join_on(split_on(s, sep), sep) == s,
        forall|i: int|
            0 <= i < split_on(s, sep).len() ==> !(#[trigger] split_on(s, sep)[i]).contains(sep),
    decreases s.len(),
{
    if s.len() > 0 {
        let t = s.drop_last();
        lemma_split_on_join(t, sep);
        lemma_split_on_nonempty(t, sep);
        let p = split_on(t, sep);
        let c = s.last();
        if c == sep {
            let q = p.push(Seq::<char>::empty());
            assert(q.drop_last() =~= p);
            assert(join_on(q, sep) =~= s);
            assert forall|i: int| 0 <= i < q.len() implies !(#[trigger] q[i]).contains(sep) by {
                if i < p.len() {
                    assert(q[i] == p[i]);
                }
            }
        } else {
            let q = p.update(p.len() - 1, p.last().push(c));
            if p.len() == 1 {
                assert(join_on(q, sep) =~= s);
            } else {
                assert(q.drop_last() =~= p.drop_last());
                assert(join_on(q, sep) =~= join_on(p, sep).push(c));
                assert(join_on(q, sep) =~= s);
            }
            assert forall|i: int| 0 <= i < q.len() implies !(#[trigger] q[i]).contains(sep) by {
                if i < p.len() - 1 {
                    assert(q[i] == p[i]);
                } else {
                    assert(q[i] == p[i].push(c));
                    assert(!p[i].contains(sep));
                    if q[i].contains(sep) {
                        let k = choose|k: int| 0 <= k < q[i].len() && q[i][k] == sep;
                        if k < p[i].len() {
                            assert(p[i][k] == sep);
                        }
                    }
                }
            }
        }
    }
}

proof fn lemma_trim_start_suffix(s: Seq<char>)
    ensures
        exists|k: int| 0 <= k <= s.len() && trim_start(s) == s.subrange(k, s.len() as int),
        trim_start(s).len() > 0 ==> !is_unicode_whitespace(trim_start(s)[0]),
    decreases s.len(),
{
    if s.len() > 0 && is_unicode_whitespace(s[0]) {
        lemma_trim_start_suffix(s.drop_first());
        let k = choose|k: int|
            0 <= k <= s.drop_first().len() && trim_start(s.drop_first()) == s.drop_first().subrange(
                k,
                s.drop_first().len() as int,
            );
        assert(s.drop_first().subrange(k, s.drop_first().len() as int) =~= s.subrange(
            k + 1,
            s.len() as int,
        ));
    } else {
        assert(s.subrange(0, s.len() as int) =~= s);
    }
}

proof fn lemma_trim_end_prefix(s: Seq<char>)
    ensures
        exists|k: int| 0 <= k <= s.len() && trim_end(s) == s.subrange(0, k),
        trim_end(s).len() > 0 ==> !is_unicode_whitespace(trim_end(s).last()),
    decreases s.len(),
{
    if s.len() > 0 && is_unicode_whitespace(s.last()) {
        lemma_trim_end_prefix(s.drop_last());
        let k = choose|k: int|
            0 <= k <= s.drop_last().len() && trim_end(s.drop_last()) == s.drop_last().subrange(0, k);
        assert(s.drop_last().subrange(0, k) =~= s.subrange(0, k));
    } else {
        assert(s.subrange(0, s.len() as int) =~= s);
    }
}

proof fn lemma_trim_start_keeps_end(s: Seq<char>)
    ensures
        trim_start(s).len() > 0 ==> trim_start(s).last() == s.last(),
    decreases s.len(),
{
    if s.len() > 0 && is_unicode_whitespace(s[0]) {
        lemma_trim_start_keeps_end(s.drop_first());
    }
}

/// Trimming gives a piece of the input that neither starts nor ends with
/// whitespace.
pub proof fn lemma_trim(s: Seq<char>)
    ensures
        exists|a: int, b: int| 0 <= a <= b <= s.len() && trim(s) == s.subrange(a, b),
        trim(s).len() > 0 ==> !is_unicode_whitespace(trim(s)[0]) && !is_unicode_whitespace(
            trim(s).last(),
        ),
{
    lemma_trim_start_suffix(s);
    let t = trim_start(s);
    let a = choose|k: int| 0 <= k <= s.len() && t == s.subrange(k, s.len() as int);
    lemma_trim_end_prefix(t);
    let b = choose|k: int| 0 <= k <= t.len() && trim_end(t) == t.subrange(0, k);
    assert(t.subrange(0, b) =~= s.subrange(a, a + b));
    if trim(s).len() > 0 {
        assert(trim(s)[0] == t[0]);
    }
}

proof fn lemma_reported_pieces_clean(pieces: Seq<Seq<char>>, sep: char)
    requires
        forall|i: int| 0 <= i < pieces.len() ==> !(#[trigger] pieces[i]).contains(sep),
    ensures
        forall|i: int|
            0 <= i < reported_pieces(pieces).len() ==> {
                let e = #[trigger] reported_pieces(pieces)[i];
                &&& is_reported_entry(e)
                &&& !e.contains(sep)
                &&& !is_unicode_whitespace(e[0])
                &&& !is_unicode_whitespace(e.last())
            },
    decreases pieces.len(),
{
    if pieces.len() > 0 {
        let rest = pieces.drop_last();
        assert forall|i: int| 0 <= i < rest.len() implies !(#[trigger] rest[i]).contains(sep) by {
            assert(rest[i] == pieces[i]);
        }
        lemma_reported_pieces_clean(rest, sep);
        let piece = pieces.last();
        let t = trim(piece);
        lemma_trim(piece);
        let r = reported_pieces(rest);
        if is_reported_entry(t) {
            let (a, b) = choose|a: int, b: int| 0 <= a <= b <= piece.len() && t == piece.subrange(a, b);
            if t.contains(sep) {
                let k = choose|k: int| 0 <= k < t.len() && t[k] == sep;
                assert(piece[a + k] == sep);
                assert(pieces[pieces.len() - 1] == piece);
            }
            assert forall|i: int| 0 <= i < r.push(t).len() implies {
                let e = #[trigger] r.push(t)[i];
                &&& is_reported_entry(e)
                &&& !e.contains(sep)
                &&& !is_unicode_whitespace(e[0])
                &&& !is_unicode_whitespace(e.last())
            } by {
                if i < r.len() {
                    assert(r.push(t)[i] == r[i]);
                }
            }
        }
    }
}

/// Every entry that the dump reports is a whole variable: it is not empty,
/// starts with a reported prefix, holds no NUL, and neither starts nor ends
/// with whitespace.
pub proof fn lemma_reported_entries_clean(text: Seq<char>)
    ensures
        forall|i: int|
            0 <= i < spec_reported_entries(text).len() ==> {
                let e = #[trigger] spec_reported_entries(text)[i];
                &&& is_reported_entry(e)
                &&& !e.contains('\0')
                &&& !is_unicode_whitespace(e[0])
                &&& !is_unicode_whitespace(e.last())
            },
{
    lemma_split_on_join(text, '\0');
    lemma_reported_pieces_clean(split_on(text, '\0'), '\0');
}

proof fn lemma_reported_pieces_complete(pieces: Seq<Seq<char>>)
    ensures
        forall|i: int|
            #![trigger pieces[i]]
            0 <= i < pieces.len() && (trim(pieces[i]).len() > 0 && (has_prefix(trim(pieces[i]), "KYBER_"@) || has_prefix(trim(pieces[i]), "MAXIMA_"@)
                    || has_prefix(trim(pieces[i]), "EA"@) || has_prefix(trim(pieces[i]), "MX"@) || has_prefix(trim(pieces[i]), "Origin"@)
                    || has_prefix(trim(pieces[i]), "Content"@) || has_prefix(trim(pieces[i]), "PATH="@) || has_prefix(trim(pieces[i]), "GRPC_"@)))
                ==> reported_pieces(pieces).contains(trim(pieces[i])),
        forall|j: int|
            0 <= j < reported_pieces(pieces).len() ==> exists|i: int|
                0 <= i < pieces.len() && #[trigger] reported_pieces(pieces)[j] == trim(pieces[i])
                    && (reported_pieces(pieces)[j].len() > 0 && (has_prefix(reported_pieces(pieces)[j], "KYBER_"@) || has_prefix(reported_pieces(pieces)[j], "MAXIMA_"@)
                    || has_prefix(reported_pieces(pieces)[j], "EA"@) || has_prefix(reported_pieces(pieces)[j], "MX"@) || has_prefix(reported_pieces(pieces)[j], "Origin"@)
                    || has_prefix(reported_pieces(pieces)[j], "Content"@) || has_prefix(reported_pieces(pieces)[j], "PATH="@) || has_prefix(reported_pieces(pieces)[j], "GRPC_"@))),
    decreases pieces.len(),
{
    if pieces.len() > 0 {
        let rest = pieces.drop_last();
        lemma_reported_pieces_complete(rest);
        let r = reported_pieces(rest);
        let t = trim(pieces.last());
        assert forall|i: int|
            #![trigger pieces[i]]
            0 <= i < pieces.len() && (trim(pieces[i]).len() > 0 && (has_prefix(trim(pieces[i]), "KYBER_"@) || has_prefix(trim(pieces[i]), "MAXIMA_"@)
                    || has_prefix(trim(pieces[i]), "EA"@) || has_prefix(trim(pieces[i]), "MX"@) || has_prefix(trim(pieces[i]), "Origin"@)
                    || has_prefix(trim(pieces[i]), "Content"@) || has_prefix(trim(pieces[i]), "PATH="@) || has_prefix(trim(pieces[i]), "GRPC_"@)))
                implies reported_pieces(pieces).contains(trim(pieces[i])) by {
            if i < rest.len() {
                assert(rest[i] == pieces[i]);
                let k = choose|k: int| 0 <= k < r.len() && r[k] == trim(rest[i]);
                if is_reported_entry(t) {
                    assert(r.push(t)[k] == r[k]);
                }
            } else {
                assert(is_reported_entry(t));
                assert(r.push(t)[r.len() as int] == t);
            }
        }
        assert forall|j: int| 0 <= j < reported_pieces(pieces).len() implies exists|i: int|
            0 <= i < pieces.len() && #[trigger] reported_pieces(pieces)[j] == trim(pieces[i])
                && (reported_pieces(pieces)[j].len() > 0 && (has_prefix(reported_pieces(pieces)[j], "KYBER_"@) || has_prefix(reported_pieces(pieces)[j], "MAXIMA_"@)
                    || has_prefix(reported_pieces(pieces)[j], "EA"@) || has_prefix(reported_pieces(pieces)[j], "MX"@) || has_prefix(reported_pieces(pieces)[j], "Origin"@)
                    || has_prefix(reported_pieces(pieces)[j], "Content"@) || has_prefix(reported_pieces(pieces)[j], "PATH="@) || has_prefix(reported_pieces(pieces)[j], "GRPC_"@))) by {
            if j < r.len() {
                let i = choose|i: int|
                    0 <= i < rest.len() && #[trigger] r[j] == trim(rest[i]) && (r[j].len() > 0 && (has_prefix(r[j], "KYBER_"@) || has_prefix(r[j], "MAXIMA_"@)
                    || has_prefix(r[j], "EA"@) || has_prefix(r[j], "MX"@) || has_prefix(r[j], "Origin"@)
                    || has_prefix(r[j], "Content"@) || has_prefix(r[j], "PATH="@) || has_prefix(r[j], "GRPC_"@)));
                assert(rest[i] == pieces[i]);
                if is_reported_entry(t) {
                    assert(r.push(t)[j] == r[j]);
                }
            } else {
                assert(reported_pieces(pieces)[j] == t);
                assert(pieces[pieces.len() - 1] == pieces.last());
            }
        }
    }
}

/// The dump reports exactly the launcher-related variables: a trimmed
/// NUL-separated piece of the text that is not empty and starts with
/// KYBER_, MAXIMA_, EA, MX, Origin, Content, PATH= or GRPC_ is among the
/// entries, and every entry is such a trimmed piece.
pub proof fn lemma_reported_entries_complete(text: Seq<char>)
    ensures
        forall|i: int|
            #![trigger split_on(text, '\0')[i]]
            0 <= i < split_on(text, '\0').len() && (trim(split_on(text, '\0')[i]).len() > 0 && (has_prefix(trim(split_on(text, '\0')[i]), "KYBER_"@) || has_prefix(trim(split_on(text, '\0')[i]), "MAXIMA_"@)
                    || has_prefix(trim(split_on(text, '\0')[i]), "EA"@) || has_prefix(trim(split_on(text, '\0')[i]), "MX"@) || has_prefix(trim(split_on(text, '\0')[i]), "Origin"@)
                    || has_prefix(trim(split_on(text, '\0')[i]), "Content"@) || has_prefix(trim(split_on(text, '\0')[i]), "PATH="@) || has_prefix(trim(split_on(text, '\0')[i]), "GRPC_"@))) ==> spec_reported_entries(text).contains(trim(split_on(text, '\0')[i])),
        forall|j: int|
            0 <= j < spec_reported_entries(text).len() ==> exists|i: int|
                0 <= i < split_on(text, '\0').len() && #[trigger] spec_reported_entries(text)[j] == trim(
                    split_on(text, '\0')[i],
                ) && (spec_reported_entries(text)[j].len() > 0 && (has_prefix(spec_reported_entries(text)[j], "KYBER_"@) || has_prefix(spec_reported_entries(text)[j], "MAXIMA_"@)
                    || has_prefix(spec_reported_entries(text)[j], "EA"@) || has_prefix(spec_reported_entries(text)[j], "MX"@) || has_prefix(spec_reported_entries(text)[j], "Origin"@)
                    || has_prefix(spec_reported_entries(text)[j], "Content"@) || has_prefix(spec_reported_entries(text)[j], "PATH="@) || has_prefix(spec_reported_entries(text)[j], "GRPC_"@))),
{
    lemma_reported_pieces_complete(split_on(text, '\0'));
}

} // verus!
