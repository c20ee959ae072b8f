//! Naming rules: the derived output path, the displayed file name, and the
//! timestamped thumbnail file name.

use vstd::prelude::*;
use vstd::string::*;

verus! {

/// Index of the last occurrence of `c` in `s`, or -1 when `c` does not occur.
pub open spec fn last_occ(s: Seq<char>, c: char) -> int
    decreases s.len(),
{
    if s.len() == 0 {
        -1
    } else if s[s.len() - 1] == c {
        s.len() - 1
    } else {
        last_occ(s.drop_last(), c)
    }
}

/// Extending a scan by one character moves the last occurrence to that
/// character's index exactly when it matches.
proof fn lemma_last_occ_step(s: Seq<char>, c: char, i: int)
    requires
        0 <= i < s.len(),
    ensures
        last_occ(s.subrange(0, i + 1), c) == if s[i] == c {
            i
        } else {
            last_occ(s.subrange(0, i), c)
        },
{
    let t = s.subrange(0, i + 1);
    assert(t.drop_last() =~= s.subrange(0, i));
}

/// `last_occ` never reaches past the end of the scanned text.
proof fn lemma_last_occ_bound(s: Seq<char>, c: char)
    ensures
        -1 <= last_occ(s, c) < s.len(),
    decreases s.len(),
{
    if s.len() > 0 && s[s.len() - 1] != c {
        lemma_last_occ_bound(s.drop_last(), c);
    }
}

/// Index of the last occurrence of `c` in `s`, if any.
pub fn last_index_of(s: &str, c: char) -> (r: Option<usize>)
    ensures
        match r {
            Some(i) => i < s@.len() && last_occ(s@, c) == i as int,
            None => last_occ(s@, c) == -1,
        },
{
    let n: usize = s.unicode_len();
    let mut i: usize = 0;
    let mut found: Option<usize> = None;
    while i < n
        invariant
            i <= n,
            n == s@.len(),
            match found {
                Some(j) => j < i && last_occ(s@.subrange(0, i as int), c) == j as int,
                None => last_occ(s@.subrange(0, i as int), c) == -1,
            },
        decreases n - i,
    {
        let ch = s.get_char(i);
        proof {
            lemma_last_occ_step(s@, c, i as int);
        }
        if ch == c {
            found = Some(i);
        }
        i += 1;
    }
    proof {
        assert(s@.subrange(0, n as int) =~= s@);
    }
    found
}

/// The output naming rule: the input path with the extension of its file
/// name replaced by `.mp3`. A file name whose only dot is its first
/// character has no extension, so `.mp3` is appended, as it is when there
/// is no dot at all.
pub open spec fn mp3_output_of(s: Seq<char>) -> Seq<char> {
    let slash = last_occ(s, '/');
    let dot = last_occ(s, '.');
    if dot > slash + 1 {
        s.subrange(0, dot) + ".mp3"@
    } else {
        s + ".mp3"@
    }
}

/// Derives the conversion output path from the input path.
pub fn derive_output_path(input: &str) -> (r: String)
    ensures
        r@ == mp3_output_of(input@),
{
    let n: usize = input.unicode_len();
    let slash = last_index_of(input, '/');
    let dot = last_index_of(input, '.');
    let cut: Option<usize> = match (slash, dot) {
        (Some(si), Some(di)) => if di > si && di - si > 1 {
            Some(di)
        } else {
            None
        },
        (None, Some(di)) => if di > 0 {
            Some(di)
        } else {
            None
        },
        _ => None,
    };
    match cut {
        Some(j) => {
            let stem = input.substring_char(0, j);
            let mut out = stem.to_owned();
            out.append(".mp3");
            out
        },
        None => {
            let mut out = input.to_owned();
            out.append(".mp3");
            out
        },
    }
}

/// The file name of a path: everything after the last separator, or the
/// whole path when it has none.
pub open spec fn file_name_of(s: Seq<char>) -> Seq<char> {
    s.subrange(last_occ(s, '/') + 1, s.len() as int)
}

/// Returns the file name of `path`, for display beside the drop zone.
pub fn file_name(path: &str) -> (r: String)
    ensures
        r@ == file_name_of(path@),
{
    let n: usize = path.unicode_len();
    match last_index_of(path, '/') {
        Some(i) => path.substring_char(i + 1, n).to_owned(),
        None => {
            proof {
                assert(path@.subrange(0, n as int) =~= path@);
            }
            path.to_owned()
        },
    }
}

/// The character for one decimal digit.
pub open spec fn dec_digit(d: int) -> char {
    if d == 0 {
        '0'
    } else if d == 1 {
        '1'
    } else if d == 2 {
        '2'
    } else if d == 3 {
        '3'
    } else if d == 4 {
        '4'
    } else if d == 5 {
        '5'
    } else if d == 6 {
        '6'
    } else if d == 7 {
        '7'
    } else if d == 8 {
        '8'
    } else {
        '9'
    }
}

/// The decimal rendering of `n`, most significant digit first, with no
/// leading zeros except for zero itself.
pub open spec fn dec_rep(n: nat) -> Seq<char>
    decreases n,
{
    if n < 10 {
        seq![dec_digit(n as int)]
    } else {
        dec_rep(n / 10).push(dec_digit((n % 10) as int))
    }
}

/// One decimal digit as text.
fn digit_str(d: u64) -> (r: &'static str)
    requires
        d < 10,
    ensures
        r@ == seq![dec_digit(d as int)],
{
    proof {
        reveal_strlit("0");
        reveal_strlit("1");
        reveal_strlit("2");
        reveal_strlit("3");
        reveal_strlit("4");
        reveal_strlit("5");
        reveal_strlit("6");
        reveal_strlit("7");
        reveal_strlit("8");
        reveal_strlit("9");
    }
    let r: &'static str = if d == 0 {
        "0"
    } else if d == 1 {
        "1"
    } else if d == 2 {
        "2"
    } else if d == 3 {
        "3"
    } else if d == 4 {
        "4"
    } else if d == 5 {
        "5"
    } else if d == 6 {
        "6"
    } else if d == 7 {
        "7"
    } else if d == 8 {
        "8"
    } else {
        "9"
    };
    proof {
        assert(r@ =~= seq![dec_digit(d as int)]);
    }
    r
}

/// Renders `n` in decimal.
pub fn u64_to_string(n: u64) -> (r: String)
    ensures
        r@ == dec_rep(n as nat),
    decreases n,
{
    let d: u64 = n % 10;
    let ds = digit_str(d);
    if n < 10 {
        ds.to_owned()
    } else {
        let mut r = u64_to_string(n / 10);
        r.append(ds);
        proof {
            assert(dec_rep((n / 10) as nat) + ds@ =~= dec_rep(n as nat));
        }
        r
    }
}

/// The thumbnail file name for one extraction job: a fixed stem with a
/// coarse timestamp, so that concurrent or stale jobs do not collide.
pub open spec fn thumbnail_name_of(timestamp: nat) -> Seq<char> {
    "thumbnail_"@ + dec_rep(timestamp) + ".jpg"@
}

/// Builds the scratch-file name for a thumbnail extracted at `timestamp`
/// (seconds resolution).
pub fn thumbnail_file_name(timestamp: u64) -> (r: String)
    ensures
        r@ == thumbnail_name_of(timestamp as nat),
{
    let mut s = String::from_str("thumbnail_");
    let num = u64_to_string(timestamp);
    s.append(num.as_str());
    s.append(".jpg");
    proof {
        assert(("thumbnail_"@ + dec_rep(timestamp as nat)) + ".jpg"@ =~= thumbnail_name_of(
            timestamp as nat,
        ));
    }
    s
}

} // verus!
