use vstd::prelude::*;
use super::{CDRom, Msf, Track, TrackIndex};

verus! {

/// Why a cue sheet was refused.
#[derive(Copy, Clone, PartialEq, Eq, Structural, Debug)]
pub enum CueError {
    /// A FILE line whose name does not start with a double quote.
    InvalidFileLine,
    /// An INDEX line without exactly three space-separated fields, or a position without
    /// exactly three colon-separated fields.
    InvalidIndexLine,
    /// An index number or position field that is not a number in range.
    InvalidNumber,
}

/// Whether `b` is ASCII whitespace (space, tab, line feed, vertical tab, form feed, return).
pub open spec fn is_ws(b: u8) -> bool {
    b == 32 || (9 <= b && b <= 13)
}

/// The number of whitespace bytes `s` starts with.
pub open spec fn ws_prefix(s: Seq<u8>) -> nat
    decreases s.len(),
{
    if s.len() > 0 && is_ws(s[0]) { 1 + ws_prefix(s.drop_first()) } else { 0 }
}

/// The number of whitespace bytes `s` ends with.
pub open spec fn ws_suffix(s: Seq<u8>) -> nat
    decreases s.len(),
{
    if s.len() > 0 && is_ws(s.last()) { 1 + ws_suffix(s.drop_last()) } else { 0 }
}

/// `s` without its leading and trailing whitespace.
pub open spec fn trim(s: Seq<u8>) -> Seq<u8> {
    let t = s.skip(ws_prefix(s) as int);
    t.take(t.len() - ws_suffix(t))
}

/// The index of the first `sep` in `s`, or its length.
pub open spec fn first_sep(s: Seq<u8>, sep: u8) -> nat
    decreases s.len(),
{
    if s.len() == 0 || s[0] == sep { 0 } else { 1 + first_sep(s.drop_first(), sep) }
}

/// The pieces of `s` between the bytes `sep`.
pub open spec fn split_on(s: Seq<u8>, sep: u8) -> Seq<Seq<u8>>
    decreases s.len(),
{
    let k = first_sep(s, sep);
    if k >= s.len() {
        seq![s]
    } else {
        seq![s.take(k as int)] + split_on(s.skip(k + 1 as int), sep)
    }
}

/// Whether `pat` occurs in `s`.
pub open spec fn contains(s: Seq<u8>, pat: Seq<u8>) -> bool {
    exists|i: int| 0 <= i && i + pat.len() <= s.len() && #[trigger] s.subrange(i, i + pat.len()) == pat
}

/// `s` with every occurrence of `pat` removed, scanning left to right.
pub open spec fn remove_all(s: Seq<u8>, pat: Seq<u8>) -> Seq<u8>
    decreases s.len(),
{
    if s.len() == 0 || pat.len() == 0 {
        s
    } else if pat.len() <= s.len() && s.take(pat.len() as int) == pat {
        remove_all(s.skip(pat.len() as int), pat)
    } else {
        seq![s[0]] + remove_all(s.drop_first(), pat)
    }
}

pub open spec fn file_word() -> Seq<u8> {
    seq![70u8, 73u8, 76u8, 69u8]
}

pub open spec fn track_word() -> Seq<u8> {
    seq![84u8, 82u8, 65u8, 67u8, 75u8]
}

pub open spec fn audio_word() -> Seq<u8> {
    seq![65u8, 85u8, 68u8, 73u8, 79u8]
}

pub open spec fn index_word() -> Seq<u8> {
    seq![73u8, 78u8, 68u8, 69u8, 88u8]
}

/// The file name of a FILE line: with "FILE " removed, the text between the leading double
/// quote and the next one (or the end).
pub open spec fn cue_filename(line: Seq<u8>) -> Result<Seq<u8>, CueError> {
    let rest = remove_all(line, file_word().push(32u8));
    if rest.len() == 0 || rest[0] != 34u8 {
        Err(CueError::InvalidFileLine)
    } else {
        let body = rest.drop_first();
        Ok(body.take(first_sep(body, 34u8) as int))
    }
}

/// Whether every byte of `s` is a decimal digit.
pub open spec fn all_digits(s: Seq<u8>) -> bool {
    forall|i: int| 0 <= i < s.len() ==> 48 <= #[trigger] s[i] <= 57
}

/// The value of a string of decimal digits.
pub open spec fn digits_value(s: Seq<u8>) -> nat
    decreases s.len(),
{
    if s.len() == 0 { 0 } else { digits_value(s.drop_last()) * 10 + (s.last() - 48) as nat }
}

/// An unsigned number as Rust parses it: an optional plus sign, then one or more digits,
/// at most `max`.
pub open spec fn parse_unsigned(s: Seq<u8>, max: nat) -> Option<nat> {
    let body = if s.len() > 0 && s[0] == 43u8 { s.drop_first() } else { s };
    if body.len() == 0 || !all_digits(body) || digits_value(body) > max {
        None
    } else {
        Some(digits_value(body))
    }
}

/// A track of a cue sheet as plain values.
pub struct TrackView {
    pub file_index: usize,
    pub track_num: usize,
    pub indexes: Seq<(usize, Msf)>,
    pub is_audio: bool,
}

/// The parser's state: the files named so far, the finished tracks, the open track and the
/// next track number.
pub struct CueState {
    pub files: Seq<Seq<u8>>,
    pub tracks: Seq<TrackView>,
    pub current: Option<TrackView>,
    pub next_track: usize,
}

/// An INDEX line's index number and position.
pub open spec fn index_entry(line: Seq<u8>) -> Result<(usize, Msf), CueError> {
    let tokens = split_on(line, 32u8);
    if tokens.len() != 3 {
        Err(CueError::InvalidIndexLine)
    } else {
        let msf = split_on(tokens[2], 58u8);
        if msf.len() != 3 {
            Err(CueError::InvalidIndexLine)
        } else {
            match (parse_unsigned(tokens[1], usize::MAX as nat), parse_unsigned(msf[0], 255),
                parse_unsigned(msf[1], 255), parse_unsigned(msf[2], 255)) {
                (Some(n), Some(m), Some(s), Some(f)) => Ok((n as usize, Msf { amm: m as u8, ass: s as u8, asect: f as u8 })),
                _ => Err(CueError::InvalidNumber),
            }
        }
    }
}

/// The parser after one line: FILE adds a file, TRACK closes the open track and opens the
/// next (audio when the line says AUDIO) in the last file, INDEX adds an index point to the
/// open track; other lines are ignored.
pub open spec fn cue_step(st: CueState, raw: Seq<u8>) -> Result<CueState, CueError> {
    let line = trim(raw);
    if line.len() == 0 {
        Ok(st)
    } else if contains(line, file_word()) {
        match cue_filename(line) {
            Ok(name) => Ok(CueState { files: st.files.push(name), ..st }),
            Err(e) => Err(e),
        }
    } else if contains(line, track_word()) {
        Ok(CueState {
            tracks: match st.current {
                Some(t) => st.tracks.push(t),
                None => st.tracks,
            },
            current: Some(TrackView {
                file_index: (st.files.len() as usize).wrapping_sub(1),
                track_num: st.next_track,
                indexes: Seq::empty(),
                is_audio: contains(line, audio_word()),
            }),
            next_track: st.next_track.wrapping_add(1),
            ..st
        })
    } else if contains(line, index_word()) {
        match index_entry(line) {
            Ok(entry) => Ok(CueState {
                current: match st.current {
                    Some(t) => Some(TrackView { indexes: t.indexes.push(entry), ..t }),
                    None => None,
                },
                ..st
            }),
            Err(e) => Err(e),
        }
    } else {
        Ok(st)
    }
}

/// The parser after the lines of `s`.
pub open spec fn cue_lines(st: CueState, s: Seq<u8>) -> Result<CueState, CueError>
    decreases s.len(),
{
    let k = first_sep(s, 10u8);
    match cue_step(st, s.take(k as int)) {
        Ok(next) => if k >= s.len() { Ok(next) } else { cue_lines(next, s.skip(k + 1 as int)) },
        Err(e) => Err(e),
    }
}

/// The files and tracks a cue sheet describes.
pub open spec fn parse_cue_spec(s: Seq<u8>) -> Result<(Seq<Seq<u8>>, Seq<TrackView>), CueError> {
    match cue_lines(CueState { files: Seq::empty(), tracks: Seq::empty(), current: None, next_track: 1 }, s) {
        Ok(st) => Ok((st.files, match st.current {
            Some(t) => st.tracks.push(t),
            None => st.tracks,
        })),
        Err(e) => Err(e),
    }
}

impl TrackIndex {
    pub open spec fn entry(&self) -> (usize, Msf) {
        (self.index_num, self.msf)
    }
}

impl Track {
    pub open spec fn track_view(&self) -> TrackView {
        TrackView {
            file_index: self.file_index,
            track_num: self.track_num,
            indexes: self.indexes@.map_values(|i: TrackIndex| i.entry()),
            is_audio: self.is_audio,
        }
    }
}

/// The byte strings held by `v`.
pub open spec fn byte_strings(v: Seq<Vec<u8>>) -> Seq<Seq<u8>> {
    v.map_values(|b: Vec<u8>| b@)
}

/// The tracks held by `v`, as plain values.
pub open spec fn track_views(v: Seq<Track>) -> Seq<TrackView> {
    v.map_values(|t: Track| t.track_view())
}

fn copy_range(s: &Vec<u8>, start: usize, end: usize) -> (r: Vec<u8>)
    requires
        start <= end <= s.len(),
    ensures
        r@ == s@.subrange(start as int, end as int),
{
    let mut r: Vec<u8> = Vec::new();
    let mut i = start;
    while i < end
        invariant
            start <= i <= end <= s.len(),
            r@ == s@.subrange(start as int, i as int),
        decreases end - i,
    {
        r.push(s[i]);
        i += 1;
        assert(r@ =~= s@.subrange(start as int, i as int));
    }
    r
}

/// The position of the first `sep` at or after `start`, or the length.
fn find_sep(s: &Vec<u8>, start: usize, sep: u8) -> (k: usize)
    requires
        start <= s.len(),
    ensures
        k == start + first_sep(s@.skip(start as int), sep),
        k <= s.len(),
{
    let mut k = start;
    while k < s.len() && s[k] != sep
        invariant
            start <= k <= s.len(),
            first_sep(s@.skip(start as int), sep) == (k - start) + first_sep(s@.skip(k as int), sep),
        decreases s.len() - k,
    {
        assert(s@.skip(k as int).drop_first() =~= s@.skip(k + 1));
        k += 1;
    }
    k
}

fn is_ws_byte(b: u8) -> (r: bool)
    ensures
        r == is_ws(b),
{
    b == 32 || (9 <= b && b <= 13)
}

proof fn lemma_ws_suffix_le(s: Seq<u8>)
    ensures
        ws_suffix(s) <= s.len(),
    decreases s.len(),
{
    if s.len() > 0 && is_ws(s.last()) {
        lemma_ws_suffix_le(s.drop_last());
    }
}

fn trim_bytes(s: &Vec<u8>) -> (r: Vec<u8>)
    ensures
        r@ == trim(s@),
{
    let mut a: usize = 0;
    assert(s@.skip(0) =~= s@);
    while a < s.len() && is_ws_byte(s[a])
        invariant
            a <= s.len(),
            ws_prefix(s@) == a + ws_prefix(s@.skip(a as int)),
        decreases s.len() - a,
    {
        assert(s@.skip(a as int).drop_first() =~= s@.skip(a + 1));
        a += 1;
    }
    let ghost t = s@.skip(a as int);
    let mut b: usize = s.len();
    while b > a && is_ws_byte(s[b - 1])
        invariant
            a <= b <= s.len(),
            t == s@.skip(a as int),
            ws_suffix(t) == (s.len() - b) + ws_suffix(s@.subrange(a as int, b as int)),
        decreases b,
    {
        assert(s@.subrange(a as int, b as int).drop_last() =~= s@.subrange(a as int, b - 1));
        b -= 1;
    }
    proof {
        assert(s@.subrange(a as int, s.len() as int) =~= t);
        lemma_ws_suffix_le(s@.subrange(a as int, b as int));
        assert(t.take(t.len() - ws_suffix(t)) =~= s@.subrange(a as int, b as int));
    }
    copy_range(s, a, b)
}

/// Whether `pat` occurs in `s`.
fn contains_bytes(s: &Vec<u8>, pat: &Vec<u8>) -> (r: bool)
    ensures
        r == contains(s@, pat@),
{
    if pat.len() > s.len() {
        return false;
    }
    let mut i: usize = 0;
    while i <= s.len() - pat.len()
        invariant
            pat.len() <= s.len(),
            forall|j: int| 0 <= j < i ==> #[trigger] s@.subrange(j, j + pat@.len()) != pat@,
        decreases s.len() - i,
    {
        let mut m: usize = 0;
        while m < pat.len() && s[i + m] == pat[m]
            invariant
                m <= pat.len(),
                i + pat.len() <= s.len(),
                forall|j: int| 0 <= j < m ==> s@[i + j] == pat@[j],
            decreases pat.len() - m,
        {
            m += 1;
        }
        if m == pat.len() {
            assert(s@.subrange(i as int, i + pat@.len()) =~= pat@);
            return true;
        }
        assert(s@.subrange(i as int, i + pat@.len())[m as int] != pat@[m as int]);
        i += 1;
    }
    proof {
        assert forall|j: int| 0 <= j && j + pat@.len() <= s@.len() implies #[trigger] s@.subrange(j, j + pat@.len()) != pat@ by {
            assert(j < i);
        }
    }
    false
}


/// Whether `pat` occurs in `s` at position `i`.
fn matches_at(s: &Vec<u8>, i: usize, pat: &Vec<u8>) -> (r: bool)
    requires
        i <= s.len(),
    ensures
        r == (pat@.len() <= s@.skip(i as int).len() && s@.skip(i as int).take(pat@.len() as int) == pat@),
{
    if pat.len() > s.len() - i {
        return false;
    }
    let mut m: usize = 0;
    while m < pat.len() && s[i + m] == pat[m]
        invariant
            m <= pat.len(),
            i + pat.len() <= s.len(),
            forall|j: int| 0 <= j < m ==> s@[i + j] == pat@[j],
        decreases pat.len() - m,
    {
        m += 1;
    }
    if m == pat.len() {
        assert(s@.skip(i as int).take(pat@.len() as int) =~= pat@);
        true
    } else {
        assert(s@.skip(i as int).take(pat@.len() as int)[m as int] != pat@[m as int]);
        false
    }
}

/// `s` with every occurrence of `pat` removed.
fn remove_all_bytes(s: &Vec<u8>, pat: &Vec<u8>) -> (r: Vec<u8>)
    requires
        pat@.len() > 0,
    ensures
        r@ == remove_all(s@, pat@),
{
    let mut out: Vec<u8> = Vec::new();
    let mut i: usize = 0;
    assert(s@.skip(0) =~= s@);
    while i < s.len()
        invariant
            i <= s.len(),
            pat@.len() > 0,
            remove_all(s@, pat@) == out@ + remove_all(s@.skip(i as int), pat@),
        decreases s.len() - i,
    {
        let ghost t = s@.skip(i as int);
        if matches_at(s, i, pat) {
            assert(t.skip(pat@.len() as int) =~= s@.skip(i + pat@.len()));
            i += pat.len();
        } else {
            assert(t.drop_first() =~= s@.skip(i + 1));
            assert(t[0] == s@[i as int]);
            out.push(s[i]);
            assert(out@ + remove_all(s@.skip(i + 1), pat@) =~= (out@.drop_last() + seq![s@[i as int]]) + remove_all(s@.skip(i + 1), pat@));
            i += 1;
        }
    }
    assert(s@.skip(i as int).len() == 0);
    assert(out@ + remove_all(s@.skip(i as int), pat@) =~= out@);
    out
}

/// The file name of a FILE line.
fn parse_cue_filename(line: &Vec<u8>) -> (r: Result<Vec<u8>, CueError>)
    ensures
        match r {
            Ok(name) => cue_filename(line@) == Ok::<Seq<u8>, CueError>(name@),
            Err(e) => cue_filename(line@) == Err::<Seq<u8>, CueError>(e),
        },
{
    let word: Vec<u8> = vec![70u8, 73u8, 76u8, 69u8, 32u8];
    assert(word@ =~= file_word().push(32u8));
    let rest = remove_all_bytes(line, &word);
    if rest.len() == 0 || rest[0] != 34u8 {
        return Err(CueError::InvalidFileLine);
    }
    let end = find_sep(&rest, 1, 34u8);
    assert(rest@.skip(1) =~= rest@.drop_first());
    assert(rest@.drop_first().take(first_sep(rest@.drop_first(), 34u8) as int) =~= rest@.subrange(1, end as int));
    Ok(copy_range(&rest, 1, end))
}

/// The pieces of `s` between the bytes `sep`.
fn split_bytes(s: &Vec<u8>, sep: u8) -> (r: Vec<Vec<u8>>)
    ensures
        byte_strings(r@) == split_on(s@, sep),
{
    let mut out: Vec<Vec<u8>> = Vec::new();
    let mut i: usize = 0;
    assert(s@.skip(0) =~= s@);
    assert(byte_strings(out@) =~= Seq::<Seq<u8>>::empty());
    loop
        invariant
            i <= s.len(),
            split_on(s@, sep) == byte_strings(out@) + split_on(s@.skip(i as int), sep),
        decreases s.len() - i,
    {
        let k = find_sep(s, i, sep);
        let piece = copy_range(s, i, k);
        let ghost t = s@.skip(i as int);
        let ghost before = out@;
        out.push(piece);
        proof {
            assert(byte_strings(out@) =~= byte_strings(before).push(piece@));
            assert(t.take((k - i) as int) =~= s@.subrange(i as int, k as int));
        }
        if k >= s.len() {
            assert(t =~= s@.subrange(i as int, k as int));
            assert(split_on(s@, sep) =~= byte_strings(out@));
            return out;
        }
        assert(t.skip(k - i + 1) =~= s@.skip(k + 1));
        assert(split_on(t, sep) == seq![t.take((k - i) as int)] + split_on(t.skip(k - i + 1), sep));
        assert(byte_strings(before) + split_on(t, sep) =~= byte_strings(out@) + split_on(s@.skip(k + 1), sep));
        i = k + 1;
    }
}

/// A string of digits' value grows as digits are added.
proof fn lemma_value_grows(s: Seq<u8>, j: int)
    requires
        all_digits(s),
        0 <= j <= s.len(),
    ensures
        digits_value(s.take(j)) <= digits_value(s),
    decreases s.len(),
{
    if j < s.len() {
        assert(all_digits(s.drop_last()));
        lemma_value_grows(s.drop_last(), j);
        assert(s.drop_last().take(j) =~= s.take(j));
        assert(48 <= s.last());
    } else {
        assert(s.take(j) =~= s);
    }
}

/// An unsigned number in `tok` no larger than `max`, as Rust parses it.
fn parse_number(tok: &Vec<u8>, max: usize) -> (r: Option<usize>)
    ensures
        match r {
            Some(v) => parse_unsigned(tok@, max as nat) == Some(v as nat),
            None => parse_unsigned(tok@, max as nat) is None,
        },
{
    let start: usize = if tok.len() > 0 && tok[0] == 43u8 { 1 } else { 0 };
    let ghost body = if tok@.len() > 0 && tok@[0] == 43u8 { tok@.drop_first() } else { tok@ };
    assert(body =~= tok@.skip(start as int));
    if start >= tok.len() {
        return None;
    }
    let mut acc: usize = 0;
    let mut i = start;
    assert(body.take(0) =~= Seq::<u8>::empty());
    while i < tok.len()
        invariant
            start <= i <= tok.len(),
            body == tok@.skip(start as int),
            body == (if tok@.len() > 0 && tok@[0] == 43u8 { tok@.drop_first() } else { tok@ }),
            acc == digits_value(body.take((i - start) as int)),
            acc <= max,
            all_digits(body.take((i - start) as int)),
        decreases tok.len() - i,
    {
        let b = tok[i];
        if b < 48 || b > 57 {
            assert(body[(i - start) as int] == b);
            assert(!all_digits(body));
            return None;
        }
        let d = (b - 48) as usize;
        let ghost prefix = body.take((i - start) as int);
        let ghost next = body.take((i - start + 1) as int);
        assert(next.drop_last() =~= prefix);
        assert(next.last() == b);
        assert(all_digits(next));
        assert(digits_value(next) == acc * 10 + d);
        if d > max || acc > (max - d) / 10 {
            proof {
                assert(acc * 10 + d > max) by (nonlinear_arith)
                    requires d > max || acc > (max - d) / 10, acc >= 0;
                if all_digits(body) {
                    lemma_value_grows(body, (i - start + 1) as int);
                }
            }
            return None;
        }
        assert(acc * 10 + d <= max) by (nonlinear_arith)
            requires acc <= (max - d) / 10, d <= max;
        acc = acc * 10 + d;
        i += 1;
    }
    assert(body.take((i - start) as int) =~= body);
    Some(acc)
}


/// An INDEX line's index number and position.
fn parse_index_entry(line: &Vec<u8>) -> (r: Result<TrackIndex, CueError>)
    ensures
        match r {
            Ok(t) => index_entry(line@) == Ok::<(usize, Msf), CueError>(t.entry()),
            Err(e) => index_entry(line@) == Err::<(usize, Msf), CueError>(e),
        },
{
    let tokens = split_bytes(line, 32u8);
    if tokens.len() != 3 {
        return Err(CueError::InvalidIndexLine);
    }
    assert(byte_strings(tokens@)[2] == tokens@[2]@);
    assert(byte_strings(tokens@)[1] == tokens@[1]@);
    let msf = split_bytes(&tokens[2], 58u8);
    if msf.len() != 3 {
        return Err(CueError::InvalidIndexLine);
    }
    assert(byte_strings(msf@)[0] == msf@[0]@);
    assert(byte_strings(msf@)[1] == msf@[1]@);
    assert(byte_strings(msf@)[2] == msf@[2]@);
    let index_num = parse_number(&tokens[1], usize::MAX);
    let mm = parse_number(&msf[0], 255);
    let ss = parse_number(&msf[1], 255);
    let sect = parse_number(&msf[2], 255);
    match (index_num, mm, ss, sect) {
        (Some(n), Some(m), Some(s), Some(f)) => Ok(TrackIndex {
            index_num: n,
            msf: Msf { amm: m as u8, ass: s as u8, asect: f as u8 },
        }),
        _ => Err(CueError::InvalidNumber),
    }
}

/// The parser state held by the exec values.
pub open spec fn state_view(files: Seq<Vec<u8>>, tracks: Seq<Track>, current: Option<Track>, next_track: usize) -> CueState {
    CueState {
        files: byte_strings(files),
        tracks: track_views(tracks),
        current: match current {
            Some(t) => Some(t.track_view()),
            None => None,
        },
        next_track,
    }
}

/// Applies one line of a cue sheet to the parser state.
fn apply_line(
    files: &mut Vec<Vec<u8>>,
    tracks: &mut Vec<Track>,
    current: &mut Option<Track>,
    next_track: &mut usize,
    raw: &Vec<u8>,
) -> (r: Result<(), CueError>)
    ensures
        match cue_step(state_view(old(files)@, old(tracks)@, *old(current), *old(next_track)), raw@) {
            Ok(st) => r is Ok && st == state_view(final(files)@, final(tracks)@, *final(current), *final(next_track)),
            Err(e) => r == Err::<(), CueError>(e),
        },
{
    let line = trim_bytes(raw);
    if line.len() == 0 {
        return Ok(());
    }
    let file: Vec<u8> = vec![70u8, 73u8, 76u8, 69u8];
    let track: Vec<u8> = vec![84u8, 82u8, 65u8, 67u8, 75u8];
    let audio: Vec<u8> = vec![65u8, 85u8, 68u8, 73u8, 79u8];
    let index: Vec<u8> = vec![73u8, 78u8, 68u8, 69u8, 88u8];
    assert(file@ =~= file_word());
    assert(track@ =~= track_word());
    assert(audio@ =~= audio_word());
    assert(index@ =~= index_word());
    if contains_bytes(&line, &file) {
        let name = parse_cue_filename(&line)?;
        let ghost before = files@;
        files.push(name);
        assert(byte_strings(files@) =~= byte_strings(before).push(name@));
        Ok(())
    } else if contains_bytes(&line, &track) {
        let ghost before = tracks@;
        match current.take() {
            Some(t) => {
                tracks.push(t);
                assert(track_views(tracks@) =~= track_views(before).push(t.track_view()));
            },
            None => {},
        }
        let is_audio = contains_bytes(&line, &audio);
        let t = Track { file_index: files.len().wrapping_sub(1), track_num: *next_track, indexes: Vec::new(), is_audio };
        assert(t.indexes@.map_values(|i: TrackIndex| i.entry()) =~= Seq::<(usize, Msf)>::empty());
        *current = Some(t);
        *next_track = next_track.wrapping_add(1);
        Ok(())
    } else if contains_bytes(&line, &index) {
        let entry = parse_index_entry(&line)?;
        match current.take() {
            Some(mut t) => {
                let ghost before = t.indexes@;
                t.indexes.push(entry);
                assert(t.indexes@.map_values(|i: TrackIndex| i.entry()) =~= before.map_values(|i: TrackIndex| i.entry()).push(entry.entry()));
                *current = Some(t);
            },
            None => {},
        }
        Ok(())
    } else {
        Ok(())
    }
}

/// Parses a cue sheet: the names of its files (FILE lines) and its tracks (TRACK lines, each
/// in the last file named, with the INDEX points after it).
pub fn parse_cue_sheet(cue: &Vec<u8>) -> (r: Result<(Vec<Vec<u8>>, Vec<Track>), CueError>)
    ensures
        match r {
            Ok((files, tracks)) => parse_cue_spec(cue@) == Ok::<(Seq<Seq<u8>>, Seq<TrackView>), CueError>((byte_strings(files@), track_views(tracks@))),
            Err(e) => parse_cue_spec(cue@) == Err::<(Seq<Seq<u8>>, Seq<TrackView>), CueError>(e),
        },
{
    let mut files: Vec<Vec<u8>> = Vec::new();
    let mut tracks: Vec<Track> = Vec::new();
    let mut current: Option<Track> = None;
    let mut next_track: usize = 1;
    let ghost init = CueState { files: Seq::empty(), tracks: Seq::empty(), current: None, next_track: 1 };
    assert(byte_strings(files@) =~= Seq::<Seq<u8>>::empty());
    assert(track_views(tracks@) =~= Seq::<TrackView>::empty());
    assert(state_view(files@, tracks@, current, next_track) == init);
    let mut i: usize = 0;
    assert(cue@.skip(0) =~= cue@);
    loop
        invariant
            i <= cue.len(),
            init == (CueState { files: Seq::empty(), tracks: Seq::empty(), current: None, next_track: 1 }),
            cue_lines(init, cue@) == cue_lines(state_view(files@, tracks@, current, next_track), cue@.skip(i as int)),
        decreases cue.len() - i,
    {
        let k = find_sep(cue, i, 10u8);
        let line = copy_range(cue, i, k);
        let ghost t = cue@.skip(i as int);
        let ghost st = state_view(files@, tracks@, current, next_track);
        assert(t.take((k - i) as int) =~= line@);
        assert(first_sep(t, 10u8) == k - i);
        match apply_line(&mut files, &mut tracks, &mut current, &mut next_track, &line) {
            Ok(()) => {},
            Err(e) => {
                assert(cue_step(st, t.take((k - i) as int)) == Err::<CueState, CueError>(e));
                assert(cue_lines(st, t) == Err::<CueState, CueError>(e));
                return Err(e);
            },
        }
        assert(cue_step(st, t.take((k - i) as int)) == Ok::<CueState, CueError>(state_view(files@, tracks@, current, next_track)));
        if k >= cue.len() {
            let ghost fin = state_view(files@, tracks@, current, next_track);
            assert(cue_lines(st, t) == Ok::<CueState, CueError>(fin));
            let ghost before = tracks@;
            match current.take() {
                Some(t) => {
                    tracks.push(t);
                    assert(track_views(tracks@) =~= track_views(before).push(t.track_view()));
                },
                None => {},
            }
            return Ok((files, tracks));
        }
        assert(t.skip(k - i + 1) =~= cue@.skip(k + 1));
        i = k + 1;
    }
}

impl CDRom {
    /// Reads a cue sheet: keeps its tracks and returns the names of the files it lists, for
    /// their contents to be loaded with `set_bin_files`.
    pub fn parse_cue(&mut self, cue_contents: &Vec<u8>) -> (r: Result<Vec<Vec<u8>>, CueError>)
        ensures
            match r {
                Ok(files) => parse_cue_spec(cue_contents@) matches Ok((names, tracks)) && names == byte_strings(files@)
                    && track_views(final(self).tracks@) == tracks,
                Err(e) => parse_cue_spec(cue_contents@) == Err::<(Seq<Seq<u8>>, Seq<TrackView>), CueError>(e),
            },
            *final(self) == (CDRom { tracks: final(self).tracks, ..*old(self) }),
    {
        let (files, tracks) = parse_cue_sheet(cue_contents)?;
        self.tracks = tracks;
        Ok(files)
    }

    /// Loads the contents of the files of a cue sheet, in its order.
    pub fn set_bin_files(&mut self, bin_files: Vec<Vec<u8>>)
        ensures
            *final(self) == (CDRom { bin_files, ..*old(self) }),
    {
        self.bin_files = bin_files;
    }
}

} // verus!
