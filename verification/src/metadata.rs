//! Tag metadata of one audio file, as the scan pass consumes it.
//!
//! The host application extracts raw tag values from the audio container and
//! hands them over as plain values; everything derived from them — filename
//! fallback for the title, ReplayGain string parsing — is computed and
//! specified here. ReplayGain gain is kept in milli-decibels and peak in
//! thousandths of full scale, so that the values carry exactly and the
//! clip-guard arithmetic can be stated over integers.

use vstd::prelude::*;

use crate::text::last_index_of;

verus! {

/// An ASCII decimal digit.
pub open spec fn is_digit_char(c: char) -> bool {
    48 <= c as int <= 57
}

/// The value of a decimal digit.
pub open spec fn digit_val(c: char) -> int {
    c as int - 48
}

/// Every character is a decimal digit.
pub open spec fn all_digits(s: Seq<char>) -> bool {
    forall|i: int| 0 <= i < s.len() ==> is_digit_char(#[trigger] s[i])
}

/// The number a digit string denotes.
pub open spec fn digits_val(s: Seq<char>) -> int
    decreases s.len(),
{
    if s.len() == 0 {
        0
    } else {
        digits_val(s.drop_last()) * 10 + digit_val(s.last())
    }
}

/// A digit string's value is never negative.
pub proof fn lemma_digits_val_nonneg(s: Seq<char>)
    requires
        all_digits(s),
    ensures
        digits_val(s) >= 0,
    decreases s.len(),
{
    if s.len() > 0 {
        assert(forall|i: int| 0 <= i < s.len() - 1 ==> #[trigger] s.drop_last()[i] == s[i]);
        lemma_digits_val_nonneg(s.drop_last());
    }
}

/// A digit string's value only grows as digits are appended.
pub proof fn lemma_digits_val_monotone(s: Seq<char>, i: int)
    requires
        all_digits(s),
        0 <= i <= s.len(),
    ensures
        digits_val(s) >= digits_val(s.take(i)),
    decreases s.len() - i,
{
    if i == s.len() {
        assert(s.take(i) =~= s);
    } else {
        assert(s.take(i + 1).drop_last() =~= s.take(i));
        assert(s.take(i + 1).last() == s[i]);
        assert(forall|j: int| 0 <= j < i + 1 ==> #[trigger] s.take(i + 1)[j] == s[j]);
        lemma_digits_val_nonneg(s.take(i + 1));
        lemma_digits_val_nonneg(s.take(i));
        lemma_digits_val_monotone(s, i + 1);
    }
}

/// The fractional digits' contribution in thousandths: the first three
/// digits, padded with zeros when fewer are given; further digits are cut.
pub open spec fn frac_milli(fp: Seq<char>) -> int {
    if fp.len() >= 3 {
        digits_val(fp.take(3))
    } else if fp.len() == 2 {
        digits_val(fp) * 10
    } else if fp.len() == 1 {
        digits_val(fp) * 100
    } else {
        0
    }
}

/// The value, in thousandths, of an unsigned decimal string: digits with at
/// most one point, at least one digit on one side of it.
pub open spec fn unsigned_milli(body: Seq<char>) -> Option<int> {
    let d = last_index_of(body, '.');
    if d == -1 {
        if body.len() > 0 && all_digits(body) {
            Some(digits_val(body) * 1000)
        } else {
            None
        }
    } else {
        let ip = body.take(d);
        let fp = body.skip(d + 1);
        if all_digits(ip) && all_digits(fp) && (ip.len() > 0 || fp.len() > 0) {
            Some(digits_val(ip) * 1000 + frac_milli(fp))
        } else {
            None
        }
    }
}

/// The value, in thousandths, of a signed decimal string; a magnitude
/// beyond the stored range parses as nothing.
pub open spec fn decimal_milli(s: Seq<char>) -> Option<int> {
    if s.len() == 0 {
        None
    } else {
        let neg = s[0] == '-';
        let body = if s[0] == '-' || s[0] == '+' {
            s.skip(1)
        } else {
            s
        };
        match unsigned_milli(body) {
            Some(v) => if v > i32::MAX {
                None
            } else if neg {
                Some(-v)
            } else {
                Some(v)
            },
            None => None,
        }
    }
}

/// An ASCII whitespace character.
pub open spec fn is_space_char(c: char) -> bool {
    c == ' ' || c == '\t' || c == '\n' || c == '\r'
}

/// The string without its leading whitespace.
pub open spec fn trim_front(s: Seq<char>) -> Seq<char>
    decreases s.len(),
{
    if s.len() > 0 && is_space_char(s[0]) {
        trim_front(s.skip(1))
    } else {
        s
    }
}

/// The string without its trailing whitespace.
pub open spec fn trim_back(s: Seq<char>) -> Seq<char>
    decreases s.len(),
{
    if s.len() > 0 && is_space_char(s.last()) {
        trim_back(s.drop_last())
    } else {
        s
    }
}

/// The string without leading or trailing whitespace.
pub open spec fn trimmed(s: Seq<char>) -> Seq<char> {
    trim_back(trim_front(s))
}

/// The string ends with this suffix.
pub open spec fn ends_with(s: Seq<char>, suf: Seq<char>) -> bool {
    s.len() >= suf.len() && s.skip(s.len() - suf.len()) == suf
}

/// The string with every trailing repeat of the suffix removed.
pub open spec fn strip_suffix_runs(s: Seq<char>, suf: Seq<char>) -> Seq<char>
    decreases s.len(),
{
    if suf.len() > 0 && ends_with(s, suf) {
        strip_suffix_runs(s.take(s.len() - suf.len()), suf)
    } else {
        s
    }
}

/// The value a ReplayGain gain tag denotes, in milli-decibels: the text is
/// trimmed, trailing " dB" then "dB" markers are stripped, and the rest is
/// read as a signed decimal.
pub open spec fn rg_milli_db(s: Seq<char>) -> Option<int> {
    decimal_milli(strip_suffix_runs(strip_suffix_runs(trimmed(s), " dB"@), "dB"@))
}

/// The value a ReplayGain peak tag denotes, in thousandths of full scale:
/// the text is trimmed and read as a signed decimal.
pub open spec fn peak_milli_of(s: Seq<char>) -> Option<int> {
    decimal_milli(trimmed(s))
}

/// The abstract value of extracted metadata.
pub ghost struct MetaV {
    pub title: Option<Seq<char>>,
    pub artist: Option<Seq<char>>,
    pub album: Option<Seq<char>>,
    pub album_artist: Option<Seq<char>>,
    pub track_number: Option<u32>,
    pub year: Option<i32>,
    pub duration: Option<i32>,
    pub genre: Option<Seq<char>>,
    pub replaygain_track_gain: Option<i32>,
    pub replaygain_track_peak: Option<i32>,
}

/// Metadata extracted from one audio file. All fields are optional except
/// that the duration is always derivable from container properties; the
/// duration is in whole seconds.
#[derive(Debug)]
pub struct AudioMetadata {
    pub title: Option<String>,
    pub artist: Option<String>,
    pub album: Option<String>,
    pub album_artist: Option<String>,
    pub track_number: Option<u32>,
    pub year: Option<i32>,
    pub duration: Option<i32>,
    pub genre: Option<String>,
    pub replaygain_track_gain: Option<i32>,
    pub replaygain_track_peak: Option<i32>,
}

impl View for AudioMetadata {
    type V = MetaV;

    open spec fn view(&self) -> MetaV {
        MetaV {
            title: self.title.deep_view(),
            artist: self.artist.deep_view(),
            album: self.album.deep_view(),
            album_artist: self.album_artist.deep_view(),
            track_number: self.track_number,
            year: self.year,
            duration: self.duration,
            genre: self.genre.deep_view(),
            replaygain_track_gain: self.replaygain_track_gain,
            replaygain_track_peak: self.replaygain_track_peak,
        }
    }
}

impl AudioMetadata {
    /// Metadata with nothing set.
    pub fn empty() -> (r: Self)
        ensures
            r@.title is None,
            r@.artist is None,
            r@.album is None,
            r@.album_artist is None,
            r@.track_number is None,
            r@.year is None,
            r@.duration is None,
            r@.genre is None,
            r@.replaygain_track_gain is None,
            r@.replaygain_track_peak is None,
    {
        Self {
            title: None,
            artist: None,
            album: None,
            album_artist: None,
            track_number: None,
            year: None,
            duration: None,
            genre: None,
            replaygain_track_gain: None,
            replaygain_track_peak: None,
        }
    }
}

/// Dropping counted leading whitespace is what `trim_front` does.
proof fn lemma_trim_front_skip(s: Seq<char>, lo: int)
    requires
        0 <= lo <= s.len(),
        forall|j: int| 0 <= j < lo ==> is_space_char(#[trigger] s[j]),
        lo < s.len() ==> !is_space_char(s[lo]),
    ensures
        trim_front(s) == s.skip(lo),
    decreases lo,
{
    if lo == 0 {
        assert(s.skip(0) =~= s);
    } else {
        assert(is_space_char(s[0]));
        assert(forall|j: int| 0 <= j < s.len() - 1 ==> #[trigger] s.skip(1)[j] == s[j + 1]);
        lemma_trim_front_skip(s.skip(1), lo - 1);
        assert(s.skip(1).skip(lo - 1) =~= s.skip(lo));
    }
}

/// Dropping counted trailing whitespace is what `trim_back` does.
proof fn lemma_trim_back_take(s: Seq<char>, hi: int)
    requires
        0 <= hi <= s.len(),
        forall|j: int| hi <= j < s.len() ==> is_space_char(#[trigger] s[j]),
        hi > 0 ==> !is_space_char(s[hi - 1]),
    ensures
        trim_back(s) == s.take(hi),
    decreases s.len() - hi,
{
    if hi == s.len() {
        assert(s.take(hi) =~= s);
    } else {
        assert(is_space_char(s.last()));
        assert(forall|j: int| 0 <= j < s.len() - 1 ==> #[trigger] s.drop_last()[j] == s[j]);
        lemma_trim_back_take(s.drop_last(), hi);
        assert(s.drop_last().take(hi) =~= s.take(hi));
    }
}

/// An ASCII whitespace test.
fn is_space(c: char) -> (r: bool)
    ensures
        r == is_space_char(c),
{
    c == ' ' || c == '\t' || c == '\n' || c == '\r'
}

/// The slice without leading or trailing ASCII whitespace.
fn trimmed_str(s: &str) -> (r: &str)
    ensures
        r@ == trimmed(s@),
{
    let n = s.unicode_len();
    let mut lo: usize = 0;
    while lo < n && is_space(s.get_char(lo))
        invariant
            n == s@.len(),
            0 <= lo <= n,
            forall|j: int| 0 <= j < lo ==> is_space_char(#[trigger] s@[j]),
        decreases n - lo,
    {
        lo += 1;
    }
    proof {
        lemma_trim_front_skip(s@, lo as int);
    }
    let mut hi: usize = n;
    while hi > lo && is_space(s.get_char(hi - 1))
        invariant
            n == s@.len(),
            0 <= lo <= hi <= n,
            forall|j: int| 0 <= j < lo ==> is_space_char(#[trigger] s@[j]),
            lo < n ==> !is_space_char(s@[lo as int]),
            forall|j: int| hi <= j < n ==> is_space_char(#[trigger] s@[j]),
        decreases hi,
    {
        hi -= 1;
    }
    proof {
        let front = s@.skip(lo as int);
        assert(forall|j: int| 0 <= j < front.len() ==> #[trigger] front[j] == s@[j + lo]);
        lemma_trim_back_take(front, hi - lo);
        assert(front.take(hi - lo) =~= s@.subrange(lo as int, hi as int));
    }
    s.substring_char(lo, hi)
}

/// Whether the slice ends with the two characters `dB`, optionally after a
/// space, giving back how many characters that marker covers.
fn db_suffix_len(t: &str, with_space: bool) -> (r: Option<usize>)
    ensures
        with_space ==> (match r {
            Some(len) => len == 3 && ends_with(t@, " dB"@),
            None => !ends_with(t@, " dB"@),
        }),
        !with_space ==> (match r {
            Some(len) => len == 2 && ends_with(t@, "dB"@),
            None => !ends_with(t@, "dB"@),
        }),
{
    proof {
        reveal_strlit(" dB");
        reveal_strlit("dB");
    }
    let n = t.unicode_len();
    if with_space {
        if n >= 3 && t.get_char(n - 3) == ' ' && t.get_char(n - 2) == 'd' && t.get_char(n - 1)
            == 'B' {
            proof {
                assert(t@.skip(n - 3) =~= " dB"@);
            }
            Some(3)
        } else {
            proof {
                if n >= 3 && t@.skip(n - 3) == " dB"@ {
                    assert(t@[n - 3] == " dB"@[0] && t@[n - 2] == " dB"@[1] && t@[n - 1]
                        == " dB"@[2]);
                }
            }
            None
        }
    } else {
        if n >= 2 && t.get_char(n - 2) == 'd' && t.get_char(n - 1) == 'B' {
            proof {
                assert(t@.skip(n - 2) =~= "dB"@);
            }
            Some(2)
        } else {
            proof {
                if n >= 2 && t@.skip(n - 2) == "dB"@ {
                    assert(t@[n - 2] == "dB"@[0] && t@[n - 1] == "dB"@[1]);
                }
            }
            None
        }
    }
}

/// The slice with every trailing ` dB`, then every trailing `dB`, removed.
fn strip_db_suffixes(t: &str) -> (r: &str)
    ensures
        r@ == strip_suffix_runs(strip_suffix_runs(t@, " dB"@), "dB"@),
{
    proof {
        reveal_strlit(" dB");
        reveal_strlit("dB");
    }
    let mut cur: &str = t;
    loop
        invariant_except_break
            strip_suffix_runs(cur@, " dB"@) == strip_suffix_runs(t@, " dB"@),
        ensures
            cur@ == strip_suffix_runs(t@, " dB"@),
        decreases cur@.len(),
    {
        proof {
            reveal_strlit(" dB");
        }
        match db_suffix_len(cur, true) {
            Some(len) => {
                let ghost prev = cur@;
                let n = cur.unicode_len();
                cur = cur.substring_char(0, n - len);
                proof {
                    assert(cur@ =~= prev.take(prev.len() - 3));
                    assert(strip_suffix_runs(prev, " dB"@) == strip_suffix_runs(
                        prev.take(prev.len() - 3),
                        " dB"@,
                    ));
                }
            },
            None => {
                break ;
            },
        }
    }
    let ghost stage1 = cur@;
    loop
        invariant_except_break
            stage1 == strip_suffix_runs(t@, " dB"@),
            strip_suffix_runs(cur@, "dB"@) == strip_suffix_runs(stage1, "dB"@),
        ensures
            cur@ == strip_suffix_runs(strip_suffix_runs(t@, " dB"@), "dB"@),
        decreases cur@.len(),
    {
        proof {
            reveal_strlit("dB");
        }
        match db_suffix_len(cur, false) {
            Some(len) => {
                let ghost prev = cur@;
                let n = cur.unicode_len();
                cur = cur.substring_char(0, n - len);
                proof {
                    assert(cur@ =~= prev.take(prev.len() - 2));
                    assert(strip_suffix_runs(prev, "dB"@) == strip_suffix_runs(
                        prev.take(prev.len() - 2),
                        "dB"@,
                    ));
                }
            },
            None => {
                break ;
            },
        }
    }
    cur
}

/// Reads a signed decimal, in thousandths, exactly as `decimal_milli`
/// describes it.
#[verifier::rlimit(100)]
fn parse_decimal_milli(t: &str) -> (r: Option<i32>)
    ensures
        match r {
            Some(v) => decimal_milli(t@) == Some(v as int),
            None => decimal_milli(t@) is None,
        },
{
    let n = t.unicode_len();
    if n == 0 {
        return None;
    }
    let c0 = t.get_char(0);
    let neg = c0 == '-';
    let start: usize = if c0 == '-' || c0 == '+' {
        1
    } else {
        0
    };
    let ghost body = if t@[0] == '-' || t@[0] == '+' {
        t@.skip(1)
    } else {
        t@
    };
    proof {
        if start == 0 {
            assert(t@.skip(0) =~= t@);
        }
        assert(body == t@.skip(start as int));
        assert(forall|j: int| 0 <= j < body.len() ==> #[trigger] body[j] == t@[j + start]);
    }
    if n - start == 0 {
        return None;
    }
    let mut i: usize = start;
    let mut dot_b: usize = 0;
    let mut has_dot = false;
    let mut int_acc: i64 = 0;
    let mut frac_cnt: usize = 0;
    let mut frac_acc: i64 = 0;
    while i < n
        invariant
            n == t@.len(),
            n > 0,
            start <= 1,
            start <= i <= n,
            neg == (t@[0] == '-'),
            (t@[0] == '-' || t@[0] == '+') <==> start == 1,
            body == (if t@[0] == '-' || t@[0] == '+' {
                t@.skip(1)
            } else {
                t@
            }),
            body == t@.skip(start as int),
            body.len() == n - start,
            n - start > 0,
            forall|j: int| 0 <= j < body.len() ==> #[trigger] body[j] == t@[j + start],
            !has_dot ==> {
                &&& forall|j: int| 0 <= j < i - start ==> is_digit_char(#[trigger] body[j])
                &&& int_acc == digits_val(body.take(i - start))
                &&& 0 <= int_acc <= i32::MAX
                &&& frac_cnt == 0
                &&& frac_acc == 0
            },
            has_dot ==> {
                &&& dot_b < i - start
                &&& body[dot_b as int] == '.'
                &&& (forall|j: int| 0 <= j < dot_b ==> is_digit_char(#[trigger] body[j]))
                &&& (forall|j: int|
                    dot_b < j < i - start ==> is_digit_char(#[trigger] body[j]))
                &&& int_acc == digits_val(body.take(dot_b as int))
                &&& 0 <= int_acc <= i32::MAX
                &&& frac_cnt == i - start - dot_b - 1
                &&& frac_acc == digits_val(
                    body.subrange(
                        dot_b + 1,
                        if frac_cnt <= 3 {
                            i - start
                        } else {
                            dot_b + 4
                        },
                    ),
                )
                &&& (frac_cnt == 0 ==> frac_acc == 0)
                &&& (frac_cnt == 1 ==> 0 <= frac_acc < 10)
                &&& (frac_cnt == 2 ==> 0 <= frac_acc < 100)
                &&& (frac_cnt >= 3 ==> 0 <= frac_acc < 1000)
            },
        decreases n - i,
    {
        let c = t.get_char(i);
        proof {
            assert(body[(i - start) as int] == t@[i as int]);
        }
        let cv = c as u32;
        if c == '.' {
            if has_dot {
                proof {
                    crate::text::lemma_last_index_of(body, '.');
                    let d = last_index_of(body, '.');
                    if d < i - start {
                        assert(body[(i - start) as int] != '.');
                        assert(false);
                    }
                    assert(d > dot_b);
                    assert(body.take(d)[dot_b as int] == '.');
                    assert(!is_digit_char(body.take(d)[dot_b as int]));
                }
                return None;
            }
            dot_b = i - start;
            has_dot = true;
            proof {
                assert(body.subrange(dot_b + 1, i + 1 - start) =~= Seq::<char>::empty());
            }
        } else if 48 <= cv && cv <= 57 {
            let digit = (cv - 48) as i64;
            if !has_dot {
                proof {
                    assert(body.take(i + 1 - start).drop_last() =~= body.take(i - start));
                    assert(body.take(i + 1 - start).last() == body[(i - start) as int]);
                }
                int_acc = int_acc * 10 + digit;
                if int_acc > 0x7fff_ffff {
                    proof {
                        crate::text::lemma_last_index_of(body, '.');
                        let d = last_index_of(body, '.');
                        if unsigned_milli(body) is Some {
                            if d == -1 {
                                lemma_digits_val_monotone(body, i + 1 - start);
                                lemma_digits_val_nonneg(body);
                            } else {
                                assert(d >= i + 1 - start) by {
                                    if d < i + 1 - start {
                                        assert(body[d] == '.');
                                        assert(false);
                                    }
                                }
                                let ip = body.take(d);
                                assert(ip.take(i + 1 - start) =~= body.take(i + 1 - start));
                                lemma_digits_val_monotone(ip, i + 1 - start);
                                lemma_digits_val_nonneg(ip);
                                assert(frac_milli(body.skip(d + 1)) >= 0) by {
                                    let fp = body.skip(d + 1);
                                    if fp.len() >= 3 {
                                        assert(forall|j: int|
                                            0 <= j < 3 ==> #[trigger] fp.take(3)[j] == fp[j]);
                                        lemma_digits_val_nonneg(fp.take(3));
                                    } else {
                                        lemma_digits_val_nonneg(fp);
                                    }
                                }
                            }
                        }
                    }
                    return None;
                }
            } else {
                if frac_cnt < 3 {
                    proof {
                        let lo = dot_b + 1;
                        assert(body.subrange(lo, i + 1 - start).drop_last() =~= body.subrange(
                            lo,
                            i - start,
                        ));
                        assert(body.subrange(lo, i + 1 - start).last() == body[(i
                            - start) as int]);
                    }
                    frac_acc = frac_acc * 10 + digit;
                } else {
                    proof {
                        assert(body.subrange(dot_b + 1, dot_b + 4) =~= body.subrange(
                            dot_b + 1,
                            dot_b + 4,
                        ));
                    }
                }
                frac_cnt += 1;
            }
        } else {
            proof {
                crate::text::lemma_last_index_of(body, '.');
                let d = last_index_of(body, '.');
                let pos = (i - start) as int;
                assert(!is_digit_char(body[pos]) && body[pos] != '.');
                if d == -1 {
                    assert(!all_digits(body));
                } else if pos < d {
                    assert(!is_digit_char(body.take(d)[pos]));
                } else if pos == d {
                    assert(body[d] == '.');
                    assert(false);
                } else {
                    assert(!is_digit_char(body.skip(d + 1)[pos - d - 1]));
                }
            }
            return None;
        }
        i += 1;
    }
    proof {
        crate::text::lemma_last_index_of(body, '.');
    }
    if has_dot {
        proof {
            let d = last_index_of(body, '.');
            assert(d == dot_b) by {
                if d > dot_b {
                    assert(is_digit_char(body[d]));
                    assert(body[d] == '.');
                    assert(false);
                }
                if d < dot_b {
                    assert(body[dot_b as int] != '.');
                    assert(false);
                }
            }
            assert(forall|j: int|
                0 <= j < body.take(dot_b as int).len() ==> #[trigger] body.take(dot_b as int)[j]
                    == body[j]);
            assert(forall|j: int|
                0 <= j < body.skip(dot_b + 1).len() ==> #[trigger] body.skip(dot_b + 1)[j]
                    == body[j + dot_b + 1]);
        }
        if dot_b == 0 && frac_cnt == 0 {
            proof {
                assert(body.take(0int).len() == 0);
                assert(body.skip(1int).len() == 0);
            }
            return None;
        }
        let padded: i64 = if frac_cnt == 0 {
            0
        } else if frac_cnt == 1 {
            frac_acc * 100
        } else if frac_cnt == 2 {
            frac_acc * 10
        } else {
            frac_acc
        };
        proof {
            let fp = body.skip(dot_b + 1);
            if frac_cnt >= 3 {
                assert(fp.take(3) =~= body.subrange(dot_b + 1, dot_b + 4));
            } else {
                assert(fp =~= body.subrange(dot_b + 1, (n - start) as int));
            }
        }
        let total: i64 = int_acc * 1000 + padded;
        if total > 0x7fff_ffff {
            return None;
        }
        let v = total as i32;
        if neg {
            Some(-v)
        } else {
            Some(v)
        }
    } else {
        proof {
            let d = last_index_of(body, '.');
            assert(d == -1) by {
                if d >= 0 {
                    assert(body[d] == '.');
                    assert(is_digit_char(body[d]));
                    assert(false);
                }
            }
            assert(body.take((n - start) as int) =~= body);
        }
        let total: i64 = int_acc * 1000;
        if total > 0x7fff_ffff {
            return None;
        }
        let v = total as i32;
        if neg {
            Some(-v)
        } else {
            Some(v)
        }
    }
}

/// Reads a ReplayGain gain tag value into milli-decibels, as `rg_milli_db`
/// describes it: trimmed, the trailing decibel marker stripped, then a
/// signed decimal.
pub fn parse_replaygain_db(s: &str) -> (r: Option<i32>)
    ensures
        match r {
            Some(v) => rg_milli_db(s@) == Some(v as int),
            None => rg_milli_db(s@) is None,
        },
{
    let t = trimmed_str(s);
    let stripped = strip_db_suffixes(t);
    parse_decimal_milli(stripped)
}

/// Reads a ReplayGain peak tag value into thousandths of full scale, as
/// `peak_milli_of` describes it: trimmed, then a signed decimal.
pub fn parse_replaygain_peak(s: &str) -> (r: Option<i32>)
    ensures
        match r {
            Some(v) => peak_milli_of(s@) == Some(v as int),
            None => peak_milli_of(s@) is None,
        },
{
    let t = trimmed_str(s);
    parse_decimal_milli(t)
}

/// The file stem of a path: its file name up to the last dot, the whole
/// name when the only dot leads it, nothing when the path has no file name.
pub open spec fn file_stem_of(p: Seq<char>) -> Option<Seq<char>> {
    let b = crate::scan::base_name(p);
    if b.len() == 0 {
        None
    } else {
        let d = last_index_of(b, '.');
        if d <= 0 {
            Some(b)
        } else {
            Some(b.take(d))
        }
    }
}

/// The file stem of a path.
pub fn file_stem(path: &str) -> (r: Option<String>)
    ensures
        match r {
            Some(s) => file_stem_of(path@) == Some(s@),
            None => file_stem_of(path@) is None,
        },
{
    let n = path.unicode_len();
    let start = match crate::text::find_last(path, '/') {
        Some(i) => i + 1,
        None => 0,
    };
    let base = path.substring_char(start, n);
    proof {
        assert(base@ =~= crate::scan::base_name(path@));
    }
    let bn = n - start;
    if bn == 0 {
        return None;
    }
    match crate::text::find_last(base, '.') {
        Some(d) => {
            if d > 0 {
                Some(base.substring_char(0, d).to_owned())
            } else {
                Some(base.to_owned())
            }
        },
        None => Some(base.to_owned()),
    }
}

impl AudioMetadata {
    /// Falls back to the file's stem for a missing title, as the metadata
    /// reader does after tag extraction; everything else stays.
    pub fn resolve_title(&mut self, path: &str)
        ensures
            old(self).title is Some ==> final(self)@ == old(self)@,
            old(self).title is None ==> final(self)@ == (MetaV {
                title: file_stem_of(path@),
                ..old(self)@
            }),
    {
        if self.title.is_none() {
            self.title = file_stem(path);
        }
    }
}

impl Clone for AudioMetadata {
    fn clone(&self) -> (r: Self)
        ensures
            r@ == self@,
    {
        Self {
            title: crate::types::opt_string_clone(&self.title),
            artist: crate::types::opt_string_clone(&self.artist),
            album: crate::types::opt_string_clone(&self.album),
            album_artist: crate::types::opt_string_clone(&self.album_artist),
            track_number: self.track_number,
            year: self.year,
            duration: self.duration,
            genre: crate::types::opt_string_clone(&self.genre),
            replaygain_track_gain: self.replaygain_track_gain,
            replaygain_track_peak: self.replaygain_track_peak,
        }
    }
}

} // verus!
